//! The selector's state machine: a query being edited, a highlighted row,
//! and the reaction to each key.

use crate::text::{is_prefix, string_of};
use crate::ui::event::{Event, KeyCode, KeyEvent};
use crate::ui::matcher::{
    edit_pending, engine_injector, inject, item_count, item_total, matched_item,
    matched_item_count, matched_items, narrowing_asked, new_engine, pattern_text, reparse, tick,
    MAX_TICK_MS,
};
use nucleo::{Injector, Nucleo};
use vstd::prelude::*;

verus! {

/// The longest query the selector takes, in characters.
pub const MAX_QUERY_LEN: usize = 65535;

/// How long one refresh waits for the match engine, in milliseconds.
pub const TICK_TIMEOUT_MS: u64 = MAX_TICK_MS;

/// What the user chose.
#[derive(Debug, Clone, PartialEq, Eq)]
pub enum PickerSelection {
    /// The highlighted item, taken with a plain Enter.
    Selection(String),
    /// The highlighted item, taken with Enter while Ctrl, Shift or Alt was held.
    ModifiedSelection(String),
    /// Nothing was chosen.
    NoSelection,
}

/// A choice, with its text as a sequence of characters.
pub enum Picked {
    Selection(Seq<char>),
    ModifiedSelection(Seq<char>),
    NoSelection,
}

impl View for PickerSelection {
    type V = Picked;

    open spec fn view(&self) -> Picked {
        match self {
            PickerSelection::Selection(text) => Picked::Selection(text@),
            PickerSelection::ModifiedSelection(text) => Picked::ModifiedSelection(text@),
            PickerSelection::NoSelection => Picked::NoSelection,
        }
    }
}

/// The selector as its contracts see it.
pub struct PickerState {
    /// The query typed so far.
    pub query: Seq<char>,
    /// Where the next character goes: a position in `query`.
    pub cursor: nat,
    /// The rank of the highlighted match.
    pub selected: Option<nat>,
    /// Whether the selector is done.
    pub should_exit: bool,
    /// The matches of the engine's snapshot, best first.
    pub matches: Seq<Seq<char>>,
    /// How many items the engine's snapshot holds, matching or not.
    pub items: nat,
    /// Whether the match engine was told, at the last edit of the query,
    /// that it may narrow its last result: it is, exactly when the query
    /// before the edit is a prefix of the query after it. This is what the
    /// engine was told, not what it does: it ranks every item anew all the
    /// same where it must.
    pub narrowed: bool,
    /// Whether an edit of the query waits for the match engine to take it
    /// up: the query was edited since the engine was last polled.
    pub pending: bool,
}

/// The highlight that fits a snapshot of `matched` matches: the rank
/// `selected` where the snapshot has that rank, the last rank where it has
/// not, the best match where nothing was highlighted, and none where nothing
/// matches.
pub open spec fn fitted_highlight(selected: Option<nat>, matched: nat) -> Option<nat> {
    if matched == 0 {
        None
    } else {
        match selected {
            Some(rank) => if rank >= matched {
                Some((matched - 1) as nat)
            } else {
                Some(rank)
            },
            None => Some(0nat),
        }
    }
}

/// The highlight that fits a snapshot of `matched` matches, when `selected`
/// was highlighted before.
pub fn fit_highlight(selected: Option<usize>, matched: usize) -> (fitted: Option<usize>)
    ensures
        match fitted_highlight(
            match selected {
                Some(rank) => Some(rank as nat),
                None => None,
            },
            matched as nat,
        ) {
            Some(rank) => fitted == Some(rank as usize),
            None => fitted is None,
        },
{
    if matched == 0 {
        None
    } else {
        match selected {
            Some(rank) => if rank >= matched {
                Some(matched - 1)
            } else {
                Some(rank)
            },
            None => Some(0),
        }
    }
}

impl PickerState {
    /// The highlight is on a match, and is missing only when nothing matches.
    pub open spec fn highlight_fits(self) -> bool {
        match self.selected {
            Some(rank) => rank < self.matches.len(),
            None => self.matches.len() == 0,
        }
    }

    /// The state with the highlight one rank further from the best match.
    /// The last rank is as far as it goes.
    pub open spec fn moved_up(self) -> PickerState {
        match self.selected {
            Some(rank) => if rank + 1 < self.matches.len() {
                PickerState { selected: Some(rank + 1), ..self }
            } else {
                self
            },
            None => self.on_first_match(),
        }
    }

    /// The state with the highlight one rank closer to the best match.
    /// The best match is as far as it goes.
    pub open spec fn moved_down(self) -> PickerState {
        match self.selected {
            Some(rank) => if rank > 0 {
                PickerState { selected: Some((rank - 1) as nat), ..self }
            } else {
                self
            },
            None => self.on_first_match(),
        }
    }

    /// The state with the best match highlighted, if anything matches.
    pub open spec fn on_first_match(self) -> PickerState {
        if self.matches.len() > 0 {
            PickerState { selected: Some(0), ..self }
        } else {
            PickerState { selected: None, ..self }
        }
    }

    /// The state with the cursor one character to the left, if it can move.
    pub open spec fn moved_left(self) -> PickerState {
        if self.cursor > 0 {
            PickerState { cursor: (self.cursor - 1) as nat, ..self }
        } else {
            self
        }
    }

    /// The state with the cursor one character to the right, if it can move.
    pub open spec fn moved_right(self) -> PickerState {
        if self.cursor < self.query.len() {
            PickerState { cursor: self.cursor + 1, ..self }
        } else {
            self
        }
    }

    /// The state with `c` typed at the cursor. A full query takes no more.
    pub open spec fn typed(self, c: char) -> PickerState {
        if self.query.len() >= MAX_QUERY_LEN {
            self
        } else {
            let query = self.query.insert(self.cursor as int, c);
            PickerState {
                query,
                cursor: self.cursor + 1,
                narrowed: self.query.is_prefix_of(query),
                pending: true,
                ..self
            }
        }
    }

    /// The state with the character before the cursor removed, if there is one.
    pub open spec fn backspaced(self) -> PickerState {
        if self.cursor == 0 {
            self
        } else {
            let query = self.query.remove(self.cursor - 1);
            PickerState {
                query,
                cursor: (self.cursor - 1) as nat,
                narrowed: self.query.is_prefix_of(query),
                pending: true,
                ..self
            }
        }
    }

    /// The state with the character under the cursor removed, if there is one.
    pub open spec fn deleted(self) -> PickerState {
        if self.cursor >= self.query.len() {
            self
        } else {
            let query = self.query.remove(self.cursor as int);
            PickerState { query, narrowed: self.query.is_prefix_of(query), pending: true, ..self }
        }
    }

    /// The state with the selector done.
    pub open spec fn exited(self) -> PickerState {
        PickerState { should_exit: true, ..self }
    }

    /// The state after a character key pressed while Ctrl is held.
    pub open spec fn after_control(self, c: char) -> PickerState {
        if c == 'c' || c == 'd' || c == 'z' {
            self.exited()
        } else if c == 'p' {
            self.moved_up()
        } else if c == 'n' {
            self.moved_down()
        } else if c == 'b' || c == 'h' {
            self.moved_left()
        } else if c == 'f' || c == 'l' {
            self.moved_right()
        } else {
            self
        }
    }

    /// The state after `key`.
    pub open spec fn after_key(self, key: KeyEvent) -> PickerState {
        match key.code {
            KeyCode::Esc => self.exited(),
            KeyCode::Enter => if self.selected is Some {
                self.exited()
            } else {
                self
            },
            KeyCode::Backspace => self.backspaced(),
            KeyCode::Delete => self.deleted(),
            KeyCode::Up => self.moved_up(),
            KeyCode::Down => self.moved_down(),
            KeyCode::Left => self.moved_left(),
            KeyCode::Right => self.moved_right(),
            KeyCode::Char(c) => if key.modifiers.control {
                self.after_control(c)
            } else {
                self.typed(c)
            },
            KeyCode::Other => self,
        }
    }

    /// What `key` chooses: the highlighted match on Enter, else nothing.
    pub open spec fn picked_by(self, key: KeyEvent) -> Picked {
        match (key.code, self.selected) {
            (KeyCode::Enter, Some(rank)) => if key.modifiers.any() {
                Picked::ModifiedSelection(self.matches[rank as int])
            } else {
                Picked::Selection(self.matches[rank as int])
            },
            _ => Picked::NoSelection,
        }
    }

    /// The state once the engine was polled and its snapshot holds `items`
    /// items of which `matches` match: no edit waits any more, the highlight
    /// is fitted to the matches, and the query, the cursor and whether the
    /// selector is done stay.
    pub open spec fn refreshed(self, matches: Seq<Seq<char>>, items: nat) -> PickerState {
        PickerState {
            selected: fitted_highlight(self.selected, matches.len()),
            matches,
            items,
            pending: false,
            ..self
        }
    }
}

/// A character typed at the end of the query asks the engine to narrow: the
/// query before is a prefix of the query after.
pub proof fn typing_at_the_end_narrows(state: PickerState, c: char)
    requires
        state.cursor == state.query.len(),
        state.query.len() < MAX_QUERY_LEN,
    ensures
        state.typed(c).query == state.query.push(c),
        state.typed(c).cursor == state.cursor + 1,
        state.typed(c).narrowed,
        state.typed(c).pending,
        state.typed(c).matches == state.matches,
{
    let longer = state.query.insert(state.cursor as int, c);
    assert(longer =~= state.query.push(c));
    assert(longer.subrange(0, state.query.len() as int) =~= state.query);
}

/// A character removed from the query asks the engine to rank every item
/// anew: the query before is longer than the query after, and so no prefix
/// of it.
pub proof fn removing_ranks_anew(state: PickerState)
    requires
        state.cursor <= state.query.len(),
    ensures
        state.cursor > 0 ==> !state.backspaced().narrowed,
        state.cursor < state.query.len() ==> !state.deleted().narrowed,
{
}

/// An interactive selector over a growing list of items.
pub struct Picker {
    matcher: Nucleo<String>,
    selection: Option<usize>,
    filter: Vec<char>,
    cursor_pos: u16,
    /// Adds items while the selector runs.
    pub injector: Injector<String>,
    prompt: String,
    should_exit: bool,
}

impl View for Picker {
    type V = PickerState;

    closed spec fn view(&self) -> PickerState {
        PickerState {
            query: self.filter@,
            cursor: self.cursor_pos as nat,
            selected: match self.selection {
                Some(rank) => Some(rank as nat),
                None => None,
            },
            should_exit: self.should_exit,
            matches: matched_items(self.matcher),
            items: item_total(self.matcher),
            narrowed: narrowing_asked(self.matcher),
            pending: edit_pending(self.matcher),
        }
    }
}

impl Picker {
    /// What holds of every selector between calls: the cursor is inside the
    /// query, the query is not over its limit, the engine's pattern is the
    /// query, and the highlight fits the snapshot.
    pub closed spec fn inv(&self) -> bool {
        &&& self.cursor_pos <= self.filter@.len() <= MAX_QUERY_LEN
        &&& pattern_text(self.matcher) == self.filter@
        &&& self@.highlight_fits()
    }

    /// The text shown before the query.
    pub closed spec fn prompt_text(&self) -> Seq<char> {
        self.prompt@
    }

    /// What a selector between calls gives its callers: the cursor is
    /// inside the query, the query is not over its limit, and the highlight
    /// fits the snapshot.
    pub proof fn inv_gives(&self)
        requires
            self.inv(),
        ensures
            self@.cursor <= self@.query.len() <= MAX_QUERY_LEN,
            self@.highlight_fits(),
    {
    }

    /// A selector over `list`, with an empty query and nothing highlighted.
    /// The items show as matches only after a `refresh`.
    pub fn new(list: &[String], prompt: String) -> (picker: Self)
        ensures
            picker.inv(),
            picker@ == (PickerState {
                query: Seq::empty(),
                cursor: 0,
                selected: None,
                should_exit: false,
                matches: Seq::empty(),
                items: 0,
                narrowed: false,
                pending: false,
            }),
            picker.prompt_text() == prompt@,
    {
        let matcher = new_engine();
        let injector = engine_injector(&matcher);
        let mut i: usize = 0;
        while i < list.len()
            invariant
                i <= list.len(),
            decreases list.len() - i,
        {
            inject(&injector, list[i].clone());
            i += 1;
        }
        Picker {
            matcher,
            injector,
            selection: None,
            filter: Vec::new(),
            cursor_pos: 0,
            prompt,
            should_exit: false,
        }
    }

    /// Hands one more item to the match engine.
    pub fn push(&self, item: String) {
        inject(&self.injector, item);
    }

    /// Reacts to one event. A tick changes nothing and chooses nothing.
    pub fn handle_event(&mut self, event: Event) -> (selection: PickerSelection)
        requires
            old(self).inv(),
        ensures
            final(self).inv(),
            final(self).prompt_text() == old(self).prompt_text(),
            match event {
                Event::Tick => final(self)@ == old(self)@ && selection@ == Picked::NoSelection,
                Event::Key(key) => final(self)@ == old(self)@.after_key(key) && selection@
                    == old(self)@.picked_by(key),
            },
    {
        match event {
            Event::Tick => PickerSelection::NoSelection,
            Event::Key(key) => self.update(key),
        }
    }

    /// Reacts to one key: edits the query, moves the cursor or the
    /// highlight, gives up, or takes the highlighted match.
    pub fn update(&mut self, key_event: KeyEvent) -> (selection: PickerSelection)
        requires
            old(self).inv(),
        ensures
            final(self).inv(),
            final(self).prompt_text() == old(self).prompt_text(),
            final(self)@ == old(self)@.after_key(key_event),
            selection@ == old(self)@.picked_by(key_event),
    {
        match key_event.code {
            KeyCode::Esc => {
                self.should_exit = true;
            },
            KeyCode::Enter => {
                if let Some(text) = self.get_selected_text() {
                    self.should_exit = true;
                    if key_event.modifiers.control || key_event.modifiers.shift
                        || key_event.modifiers.alt {
                        return PickerSelection::ModifiedSelection(text);
                    } else {
                        return PickerSelection::Selection(text);
                    }
                }
            },
            KeyCode::Backspace => self.backspace(),
            KeyCode::Delete => self.delete(),
            KeyCode::Up => self.move_cursor_up(),
            KeyCode::Down => self.move_cursor_down(),
            KeyCode::Left => self.move_cursor_left(),
            KeyCode::Right => self.move_cursor_right(),
            KeyCode::Char(c) => {
                if key_event.modifiers.control {
                    if c == 'c' || c == 'd' || c == 'z' {
                        self.should_exit = true;
                    } else if c == 'p' {
                        self.move_cursor_up();
                    } else if c == 'n' {
                        self.move_cursor_down();
                    } else if c == 'b' || c == 'h' {
                        self.move_cursor_left();
                    } else if c == 'f' || c == 'l' {
                        self.move_cursor_right();
                    }
                } else {
                    self.update_filter(c);
                }
            },
            KeyCode::Other => {},
        }
        PickerSelection::NoSelection
    }

    /// Polls the match engine, waiting no longer than `TICK_TIMEOUT_MS` for
    /// it, and fits the highlight to its new snapshot. An edit of the query
    /// that waited is taken up by the engine. What the snapshot holds
    /// afterwards is the engine's business.
    pub fn refresh(&mut self)
        requires
            old(self).inv(),
        ensures
            final(self).inv(),
            final(self).prompt_text() == old(self).prompt_text(),
            final(self)@ == old(self)@.refreshed(final(self)@.matches, final(self)@.items),
    {
        tick(&mut self.matcher, TICK_TIMEOUT_MS);
        let count = matched_item_count(&self.matcher) as usize;
        self.selection = fit_highlight(self.selection, count);
    }

    /// The text of the highlighted match.
    pub fn get_selected_text(&self) -> (text: Option<String>)
        requires
            self.inv(),
        ensures
            match self@.selected {
                Some(rank) => text matches Some(t) && t@ == self@.matches[rank as int],
                None => text is None,
            },
    {
        let count = matched_item_count(&self.matcher);
        match self.selection {
            Some(rank) => {
                assert(rank < count);
                matched_item(&self.matcher, rank as u32)
            },
            None => None,
        }
    }

    /// Moves the highlight one rank further from the best match.
    pub fn move_cursor_up(&mut self)
        requires
            old(self).inv(),
        ensures
            final(self).inv(),
            final(self).prompt_text() == old(self).prompt_text(),
            final(self)@ == old(self)@.moved_up(),
    {
        let count = matched_item_count(&self.matcher) as usize;
        if count == 0 {
            return ;
        }
        let max = count - 1;
        match self.selection {
            Some(rank) => {
                if rank < max {
                    self.selection = Some(rank + 1);
                }
            },
            None => {
                self.selection = Some(0);
            },
        }
    }

    /// Moves the highlight one rank closer to the best match.
    pub fn move_cursor_down(&mut self)
        requires
            old(self).inv(),
        ensures
            final(self).inv(),
            final(self).prompt_text() == old(self).prompt_text(),
            final(self)@ == old(self)@.moved_down(),
    {
        match self.selection {
            Some(rank) => {
                if rank > 0 {
                    self.selection = Some(rank - 1);
                }
            },
            None => {},
        }
    }

    /// Moves the cursor one character to the left.
    pub fn move_cursor_left(&mut self)
        requires
            old(self).inv(),
        ensures
            final(self).inv(),
            final(self).prompt_text() == old(self).prompt_text(),
            final(self)@ == old(self)@.moved_left(),
    {
        if self.cursor_pos > 0 {
            self.cursor_pos -= 1;
        }
    }

    /// Moves the cursor one character to the right.
    pub fn move_cursor_right(&mut self)
        requires
            old(self).inv(),
        ensures
            final(self).inv(),
            final(self).prompt_text() == old(self).prompt_text(),
            final(self)@ == old(self)@.moved_right(),
    {
        if (self.cursor_pos as usize) < self.filter.len() {
            self.cursor_pos += 1;
        }
    }

    /// Types `c` at the cursor and tells the match engine.
    pub fn update_filter(&mut self, c: char)
        requires
            old(self).inv(),
        ensures
            final(self).inv(),
            final(self).prompt_text() == old(self).prompt_text(),
            final(self)@ == old(self)@.typed(c),
    {
        if self.filter.len() >= MAX_QUERY_LEN {
            return ;
        }
        let prev_filter = self.filter.clone();
        self.filter.insert(self.cursor_pos as usize, c);
        self.cursor_pos += 1;
        self.update_matcher_pattern(&prev_filter);
    }

    /// Removes the character before the cursor and tells the match engine.
    pub fn backspace(&mut self)
        requires
            old(self).inv(),
        ensures
            final(self).inv(),
            final(self).prompt_text() == old(self).prompt_text(),
            final(self)@ == old(self)@.backspaced(),
    {
        if self.cursor_pos == 0 {
            return ;
        }
        let prev_filter = self.filter.clone();
        self.filter.remove(self.cursor_pos as usize - 1);
        self.cursor_pos -= 1;
        self.update_matcher_pattern(&prev_filter);
    }

    /// Removes the character under the cursor and tells the match engine.
    pub fn delete(&mut self)
        requires
            old(self).inv(),
        ensures
            final(self).inv(),
            final(self).prompt_text() == old(self).prompt_text(),
            final(self)@ == old(self)@.deleted(),
    {
        if (self.cursor_pos as usize) >= self.filter.len() {
            return ;
        }
        let prev_filter = self.filter.clone();
        self.filter.remove(self.cursor_pos as usize);
        self.update_matcher_pattern(&prev_filter);
    }

    /// Hands the query to the match engine. The engine is given leave to
    /// narrow its last result, in place of ranking every item anew, exactly
    /// when the query it had, `prev_filter`, is a prefix of the new one.
    fn update_matcher_pattern(&mut self, prev_filter: &Vec<char>)
        requires
            pattern_text(old(self).matcher) == prev_filter@,
            old(self).cursor_pos <= old(self).filter@.len() <= MAX_QUERY_LEN,
            old(self)@.highlight_fits(),
        ensures
            final(self).inv(),
            final(self).prompt_text() == old(self).prompt_text(),
            final(self)@ == (PickerState {
                narrowed: prev_filter@.is_prefix_of(old(self)@.query),
                pending: true,
                ..old(self)@
            }),
    {
        let append = is_prefix(prev_filter, &self.filter);
        let text = string_of(&self.filter);
        reparse(&mut self.matcher, text.as_str(), append);
    }

    /// The query typed so far.
    pub fn filter(&self) -> (text: String)
        ensures
            text@ == self@.query,
    {
        string_of(&self.filter)
    }

    /// The cursor's position in the query, in characters.
    pub fn cursor_pos(&self) -> (position: u16)
        ensures
            position == self@.cursor,
    {
        self.cursor_pos
    }

    /// The text shown before the query.
    pub fn prompt(&self) -> (text: &str)
        ensures
            text@ == self.prompt_text(),
    {
        self.prompt.as_str()
    }

    /// The rank of the highlighted match.
    pub fn selected(&self) -> (rank: Option<usize>)
        ensures
            match rank {
                Some(r) => self@.selected == Some(r as nat),
                None => self@.selected is None,
            },
    {
        self.selection
    }

    /// Whether the selector is done: a match was taken or the user gave up.
    pub fn should_exit(&self) -> (done: bool)
        ensures
            done == self@.should_exit,
    {
        self.should_exit
    }

    /// How many items match in the current snapshot.
    pub fn matched_item_count(&self) -> (count: u32)
        ensures
            count == self@.matches.len(),
    {
        matched_item_count(&self.matcher)
    }

    /// How many items the current snapshot holds, matching or not.
    pub fn item_count(&self) -> (count: u32)
        ensures
            count == self@.items,
    {
        item_count(&self.matcher)
    }

    /// The matches of the current snapshot, best first.
    pub fn matched_items(&self) -> (items: Vec<String>)
        ensures
            items@.len() == self@.matches.len(),
            forall|i: int| 0 <= i < items@.len() ==> (#[trigger] items@[i])@ == self@.matches[i],
    {
        let count = matched_item_count(&self.matcher);
        let mut items: Vec<String> = Vec::new();
        let mut n: u32 = 0;
        while n < count
            invariant
                n <= count,
                count == matched_items(self.matcher).len(),
                items@.len() == n,
                forall|i: int|
                    0 <= i < n ==> (#[trigger] items@[i])@ == matched_items(self.matcher)[i],
            decreases count - n,
        {
            match matched_item(&self.matcher, n) {
                Some(text) => {
                    items.push(text);
                },
                None => {},
            }
            n += 1;
        }
        items
    }
}

} // verus!
