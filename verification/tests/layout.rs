use twm::layout::{
    get_commands_from_layout, get_commands_from_layout_name, get_layout_by_name, get_layout_names,
    LayoutDefinition, LayoutError,
};

fn layout(name: &str, inherits: Option<&[&str]>, commands: Option<&[&str]>) -> LayoutDefinition {
    LayoutDefinition {
        name: name.to_string(),
        inherits: inherits.map(|l| l.iter().map(|s| s.to_string()).collect()),
        commands: commands.map(|l| l.iter().map(|s| s.to_string()).collect()),
    }
}

#[test]
fn child_flattens_to_base_then_own() {
    let layouts = vec![
        layout("base", None, Some(&["x"])),
        layout("child", Some(&["base"]), Some(&["y"])),
    ];
    assert_eq!(get_commands_from_layout(&layouts[1], &layouts), Ok(vec!["x", "y"]));
    assert_eq!(get_commands_from_layout_name("child", &layouts), Ok(vec!["x", "y"]));
    assert_eq!(get_commands_from_layout_name("base", &layouts), Ok(vec!["x"]));
}

#[test]
fn inherited_layouts_come_in_listed_order() {
    let layouts = vec![
        layout("a", None, Some(&["a1", "a2"])),
        layout("b", None, Some(&["b1"])),
        layout("c", Some(&["b", "a"]), Some(&["c1"])),
        layout("d", Some(&["c", "a"]), None),
    ];
    assert_eq!(get_commands_from_layout_name("c", &layouts), Ok(vec!["b1", "a1", "a2", "c1"]));
    assert_eq!(
        get_commands_from_layout_name("d", &layouts),
        Ok(vec!["b1", "a1", "a2", "c1", "a1", "a2"])
    );
}

#[test]
fn layout_reached_twice_contributes_twice() {
    let layouts = vec![
        layout("base", None, Some(&["x"])),
        layout("left", Some(&["base"]), Some(&["l"])),
        layout("right", Some(&["base"]), Some(&["r"])),
        layout("top", Some(&["left", "right"]), Some(&["t"])),
    ];
    assert_eq!(
        get_commands_from_layout_name("top", &layouts),
        Ok(vec!["x", "l", "x", "r", "t"])
    );
}

#[test]
fn unknown_names_contribute_nothing() {
    let layouts = vec![layout("a", Some(&["ghost"]), Some(&["x"]))];
    assert_eq!(get_commands_from_layout_name("a", &layouts), Ok(vec!["x"]));
    assert_eq!(get_commands_from_layout_name("ghost", &layouts), Ok(vec![]));
    assert_eq!(get_commands_from_layout_name("a", &[]), Ok(vec![]));
}

#[test]
fn layout_without_commands_or_parents_is_empty() {
    let layouts = vec![layout("a", None, None)];
    assert_eq!(get_commands_from_layout(&layouts[0], &layouts), Ok(vec![]));
}

#[test]
fn cycles_are_errors() {
    let layouts = vec![
        layout("a", Some(&["b"]), Some(&["x"])),
        layout("b", Some(&["a"]), Some(&["y"])),
        layout("self", Some(&["self"]), None),
        layout("far", Some(&["ok", "a"]), None),
        layout("ok", None, Some(&["fine"])),
    ];
    assert_eq!(
        get_commands_from_layout_name("a", &layouts),
        Err(LayoutError::InheritanceCycle { layout: "a".to_string() })
    );
    assert_eq!(
        get_commands_from_layout_name("b", &layouts),
        Err(LayoutError::InheritanceCycle { layout: "b".to_string() })
    );
    assert_eq!(
        get_commands_from_layout_name("self", &layouts),
        Err(LayoutError::InheritanceCycle { layout: "self".to_string() })
    );
    assert_eq!(
        get_commands_from_layout_name("far", &layouts),
        Err(LayoutError::InheritanceCycle { layout: "a".to_string() })
    );
    assert_eq!(get_commands_from_layout_name("ok", &layouts), Ok(vec!["fine"]));
}

#[test]
fn local_layout_may_share_a_name_with_a_global_one() {
    let layouts = vec![layout("dev", None, Some(&["global"]))];
    let local = layout("dev", Some(&["dev"]), Some(&["local"]));
    assert_eq!(get_commands_from_layout(&local, &layouts), Ok(vec!["global", "local"]));
}

#[test]
fn first_layout_of_a_name_is_found() {
    let layouts = vec![
        layout("a", None, Some(&["first"])),
        layout("b", None, None),
        layout("a", None, Some(&["second"])),
    ];
    assert_eq!(get_layout_by_name("a", &layouts), Some(&layouts[0]));
    assert_eq!(get_layout_by_name("b", &layouts), Some(&layouts[1]));
    assert_eq!(get_layout_by_name("c", &layouts), None);
    assert_eq!(get_commands_from_layout_name("a", &layouts), Ok(vec!["first"]));
}

#[test]
fn layout_names_in_order() {
    let layouts = vec![layout("a", None, None), layout("b", None, None), layout("a", None, None)];
    assert_eq!(get_layout_names(&layouts), vec!["a", "b", "a"]);
    assert!(get_layout_names(&[]).is_empty());
}
