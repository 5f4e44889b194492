use twm::ui::picker::fit_highlight;
use twm::ui::{Event, KeyCode, KeyEvent, KeyModifiers, Picker, PickerSelection};

fn strings(items: &[&str]) -> Vec<String> {
    items.iter().map(|s| s.to_string()).collect()
}

fn key(code: KeyCode) -> KeyEvent {
    KeyEvent::plain(code)
}

fn ctrl(c: char) -> KeyEvent {
    KeyEvent::new(KeyCode::Char(c), KeyModifiers { control: true, shift: false, alt: false })
}

fn type_text(picker: &mut Picker, text: &str) {
    for c in text.chars() {
        assert_eq!(picker.update(key(KeyCode::Char(c))), PickerSelection::NoSelection);
    }
}

fn settle(picker: &mut Picker, expected: u32) {
    for _ in 0..500 {
        picker.refresh();
        if picker.matched_item_count() == expected {
            picker.refresh();
            if picker.matched_item_count() == expected {
                return;
            }
        }
    }
    panic!("the matcher did not settle on {} matches, it has {}", expected, picker.matched_item_count());
}

#[test]
fn new_picker_is_empty() {
    let picker = Picker::new(&strings(&["a", "b"]), "Pick: ".to_string());
    assert_eq!(picker.filter(), "");
    assert_eq!(picker.cursor_pos(), 0);
    assert_eq!(picker.selected(), None);
    assert!(!picker.should_exit());
    assert_eq!(picker.prompt(), "Pick: ");
    assert_eq!(picker.matched_item_count(), 0);
    assert_eq!(picker.item_count(), 0);
    assert_eq!(picker.get_selected_text(), None);
}

#[test]
fn items_match_after_a_refresh() {
    let mut picker = Picker::new(&strings(&["alpha", "beta", "gamma"]), "> ".to_string());
    settle(&mut picker, 3);
    assert_eq!(picker.item_count(), 3);
    assert_eq!(picker.selected(), Some(0));
    let mut items = picker.matched_items();
    items.sort();
    assert_eq!(items, strings(&["alpha", "beta", "gamma"]));
}

#[test]
fn typing_edits_the_query_at_the_cursor() {
    let mut picker = Picker::new(&[], "> ".to_string());
    type_text(&mut picker, "abc");
    assert_eq!(picker.filter(), "abc");
    assert_eq!(picker.cursor_pos(), 3);
    picker.update(key(KeyCode::Left));
    picker.update(key(KeyCode::Left));
    assert_eq!(picker.cursor_pos(), 1);
    picker.update(key(KeyCode::Char('x')));
    assert_eq!(picker.filter(), "axbc");
    assert_eq!(picker.cursor_pos(), 2);
    picker.update(key(KeyCode::Backspace));
    assert_eq!(picker.filter(), "abc");
    assert_eq!(picker.cursor_pos(), 1);
    picker.update(key(KeyCode::Delete));
    assert_eq!(picker.filter(), "ac");
    assert_eq!(picker.cursor_pos(), 1);
    picker.update(key(KeyCode::Right));
    picker.update(key(KeyCode::Right));
    picker.update(key(KeyCode::Right));
    assert_eq!(picker.cursor_pos(), 2);
    picker.update(key(KeyCode::Delete));
    assert_eq!(picker.filter(), "ac");
    picker.update(key(KeyCode::Left));
    picker.update(key(KeyCode::Left));
    picker.update(key(KeyCode::Left));
    assert_eq!(picker.cursor_pos(), 0);
    picker.update(key(KeyCode::Backspace));
    assert_eq!(picker.filter(), "ac");
    assert!(!picker.should_exit());
}

#[test]
fn query_takes_characters_beyond_ascii() {
    let mut picker = Picker::new(&[], "> ".to_string());
    type_text(&mut picker, "héé");
    picker.update(key(KeyCode::Left));
    picker.update(key(KeyCode::Char('ü')));
    assert_eq!(picker.filter(), "héüé");
    assert_eq!(picker.cursor_pos(), 3);
    picker.update(key(KeyCode::Backspace));
    picker.update(key(KeyCode::Backspace));
    assert_eq!(picker.filter(), "hé");
    assert_eq!(picker.cursor_pos(), 1);
}

#[test]
fn control_keys_move_and_exit() {
    let mut picker = Picker::new(&[], "> ".to_string());
    type_text(&mut picker, "ab");
    picker.update(ctrl('b'));
    assert_eq!(picker.cursor_pos(), 1);
    picker.update(ctrl('h'));
    assert_eq!(picker.cursor_pos(), 0);
    picker.update(ctrl('f'));
    picker.update(ctrl('l'));
    assert_eq!(picker.cursor_pos(), 2);
    picker.update(ctrl('x'));
    assert_eq!(picker.filter(), "ab");
    assert!(!picker.should_exit());
    for c in ['c', 'd', 'z'] {
        let mut quitting = Picker::new(&[], "> ".to_string());
        assert_eq!(quitting.update(ctrl(c)), PickerSelection::NoSelection);
        assert!(quitting.should_exit());
        assert_eq!(quitting.filter(), "");
    }
}

#[test]
fn escape_gives_up() {
    let mut picker = Picker::new(&strings(&["a"]), "> ".to_string());
    settle(&mut picker, 1);
    assert_eq!(picker.update(key(KeyCode::Esc)), PickerSelection::NoSelection);
    assert!(picker.should_exit());
}

#[test]
fn enter_without_matches_does_nothing() {
    let mut picker = Picker::new(&[], "> ".to_string());
    picker.refresh();
    assert_eq!(picker.update(key(KeyCode::Enter)), PickerSelection::NoSelection);
    assert!(!picker.should_exit());
    picker.update(key(KeyCode::Up));
    picker.update(key(KeyCode::Down));
    assert_eq!(picker.selected(), None);
}

#[test]
fn enter_takes_the_highlighted_match() {
    let mut picker = Picker::new(&strings(&["only"]), "> ".to_string());
    settle(&mut picker, 1);
    assert_eq!(picker.get_selected_text(), Some("only".to_string()));
    assert_eq!(
        picker.update(key(KeyCode::Enter)),
        PickerSelection::Selection("only".to_string())
    );
    assert!(picker.should_exit());
}

#[test]
fn modified_enter_is_told_apart() {
    for modifiers in [
        KeyModifiers { control: true, shift: false, alt: false },
        KeyModifiers { control: false, shift: true, alt: false },
        KeyModifiers { control: false, shift: false, alt: true },
        KeyModifiers { control: true, shift: true, alt: true },
    ] {
        let mut picker = Picker::new(&strings(&["only"]), "> ".to_string());
        settle(&mut picker, 1);
        assert_eq!(
            picker.update(KeyEvent::new(KeyCode::Enter, modifiers)),
            PickerSelection::ModifiedSelection("only".to_string())
        );
        assert!(picker.should_exit());
    }
}

#[test]
fn highlight_moves_within_the_matches() {
    let mut picker = Picker::new(&strings(&["a1", "a2", "a3"]), "> ".to_string());
    settle(&mut picker, 3);
    assert_eq!(picker.selected(), Some(0));
    picker.update(key(KeyCode::Down));
    assert_eq!(picker.selected(), Some(0));
    picker.update(key(KeyCode::Up));
    assert_eq!(picker.selected(), Some(1));
    picker.update(ctrl('p'));
    assert_eq!(picker.selected(), Some(2));
    picker.update(key(KeyCode::Up));
    assert_eq!(picker.selected(), Some(2));
    picker.update(ctrl('n'));
    assert_eq!(picker.selected(), Some(1));
    let items = picker.matched_items();
    assert_eq!(picker.get_selected_text(), Some(items[1].clone()));
    assert_eq!(
        picker.update(key(KeyCode::Enter)),
        PickerSelection::Selection(items[1].clone())
    );
}

#[test]
fn longer_query_never_matches_more() {
    let items = strings(&["/home/me/alpha", "/home/me/beta", "/srv/alpine", "/srv/gamma"]);
    let mut picker = Picker::new(&items, "> ".to_string());
    settle(&mut picker, 4);
    let mut previous = picker.matched_item_count();
    for (c, expected) in [('a', 4), ('l', 2), ('p', 2), ('h', 1), ('q', 0)] {
        picker.update(key(KeyCode::Char(c)));
        settle(&mut picker, expected);
        assert!(picker.matched_item_count() <= previous);
        previous = picker.matched_item_count();
    }
    assert_eq!(picker.selected(), None);
    picker.update(key(KeyCode::Backspace));
    settle(&mut picker, 1);
    assert_eq!(picker.matched_items(), strings(&["/home/me/alpha"]));
    assert_eq!(picker.selected(), Some(0));
}

#[test]
fn highlight_follows_a_shrinking_list() {
    let mut picker = Picker::new(&strings(&["ab", "ac", "ad"]), "> ".to_string());
    settle(&mut picker, 3);
    picker.update(key(KeyCode::Up));
    picker.update(key(KeyCode::Up));
    assert_eq!(picker.selected(), Some(2));
    picker.update(key(KeyCode::Char('c')));
    settle(&mut picker, 1);
    assert_eq!(picker.selected(), Some(0));
    assert_eq!(picker.get_selected_text(), Some("ac".to_string()));
}

#[test]
fn pushed_items_join_the_matches() {
    let mut picker = Picker::new(&[], "> ".to_string());
    picker.push("/a/one".to_string());
    picker.push("/a/two".to_string());
    settle(&mut picker, 2);
    type_text(&mut picker, "two");
    settle(&mut picker, 1);
    assert_eq!(picker.matched_items(), strings(&["/a/two"]));
    picker.push("/b/two".to_string());
    settle(&mut picker, 2);
    assert_eq!(picker.item_count(), 3);
}

#[test]
fn ticks_change_nothing() {
    let mut picker = Picker::new(&strings(&["a"]), "> ".to_string());
    type_text(&mut picker, "a");
    assert_eq!(picker.handle_event(Event::Tick), PickerSelection::NoSelection);
    assert_eq!(picker.filter(), "a");
    assert_eq!(picker.cursor_pos(), 1);
    assert!(!picker.should_exit());
    assert_eq!(
        picker.handle_event(Event::Key(key(KeyCode::Char('b')))),
        PickerSelection::NoSelection
    );
    assert_eq!(picker.filter(), "ab");
    picker.handle_event(Event::Key(key(KeyCode::Other)));
    assert_eq!(picker.filter(), "ab");
}

#[test]
fn negated_query_can_match_more_when_it_grows() {
    let mut picker = Picker::new(&strings(&["ab", "ac"]), "> ".to_string());
    settle(&mut picker, 2);
    type_text(&mut picker, "!a");
    settle(&mut picker, 0);
    type_text(&mut picker, "b");
    settle(&mut picker, 1);
    assert_eq!(picker.matched_items(), strings(&["ac"]));
}

#[test]
fn highlight_is_fitted_to_the_number_of_matches() {
    assert_eq!(fit_highlight(None, 0), None);
    assert_eq!(fit_highlight(Some(3), 0), None);
    assert_eq!(fit_highlight(None, 4), Some(0));
    assert_eq!(fit_highlight(Some(2), 4), Some(2));
    assert_eq!(fit_highlight(Some(3), 4), Some(3));
    assert_eq!(fit_highlight(Some(4), 4), Some(3));
    assert_eq!(fit_highlight(Some(usize::MAX), 1), Some(0));
}

#[test]
fn snapshot_counts_all_items_and_keeps_them_while_typing() {
    let mut picker = Picker::new(&strings(&["ab", "ac", "zz"]), "> ".to_string());
    settle(&mut picker, 3);
    assert_eq!(picker.item_count(), 3);
    type_text(&mut picker, "a");
    assert_eq!(picker.item_count(), 3);
    assert_eq!(picker.matched_item_count(), 3);
    settle(&mut picker, 2);
    assert_eq!(picker.item_count(), 3);
}

#[test]
fn polling_takes_up_an_edit() {
    let mut picker = Picker::new(&strings(&["ab", "cd"]), "> ".to_string());
    settle(&mut picker, 2);
    type_text(&mut picker, "c");
    assert_eq!(picker.matched_item_count(), 2);
    settle(&mut picker, 1);
    assert_eq!(picker.matched_items(), strings(&["cd"]));
}
