use twm::config::{RawTwmGlobal, TwmGlobal, TwmLayout};
use twm::layout::{LayoutDefinition, LayoutError};
use twm::tmux::{
    attach_to_tmux_session, attach_to_tmux_session_inside_tmux, create_tmux_session,
    create_tmux_session_in_group, get_group_session_name, get_tmux_sessions,
    get_twm_root_for_session, get_workspace_commands, initialise_session, list_sessions,
    open_workspace, open_workspace_in_group, send_commands_to_session, show_environment, tmux_has_session,
    Attach, SessionName, TmuxCommand,
};
use twm::workspace::{NullCondition, WorkspaceConditionEnum, WorkspaceDefinition};

fn strings(items: &[&str]) -> Vec<String> {
    items.iter().map(|s| s.to_string()).collect()
}

fn command(args: &[&str]) -> TmuxCommand {
    TmuxCommand { args: strings(args) }
}

fn config_with(layouts: Vec<LayoutDefinition>, definitions: Vec<WorkspaceDefinition>) -> TwmGlobal {
    let mut config = TwmGlobal::with_search_paths(RawTwmGlobal::default(), vec![]);
    config.layouts = layouts;
    config.workspace_definitions = definitions;
    config
}

fn layout(name: &str, inherits: Option<&[&str]>, commands: &[&str]) -> LayoutDefinition {
    LayoutDefinition {
        name: name.to_string(),
        inherits: inherits.map(strings),
        commands: Some(strings(commands)),
    }
}

fn definition(name: &str, default_layout: Option<&str>) -> WorkspaceDefinition {
    WorkspaceDefinition {
        name: name.to_string(),
        conditions: vec![WorkspaceConditionEnum::NullCondition(NullCondition {})],
        default_layout: default_layout.map(|l| l.to_string()),
    }
}

#[test]
fn new_session_command() {
    let name = SessionName::new("/home/me/foo/b.ar", 2);
    assert_eq!(
        create_tmux_session(&name, Some("rust"), "/home/me/foo/b.ar"),
        command(&[
            "new-session",
            "-ds",
            "foo/b_ar",
            "-t",
            "foo/b_ar",
            "-c",
            "/home/me/foo/b.ar",
            "-e",
            "TWM=1",
            "-e",
            "TWM_ROOT=/home/me/foo/b.ar",
            "-e",
            "TWM_TYPE=rust",
            "-e",
            "TWM_NAME=foo/b_ar",
        ])
    );
    let untyped = create_tmux_session(&name, None, "/p");
    assert_eq!(untyped.args[12], "TWM_TYPE=");
    assert_eq!(untyped.args[10], "TWM_ROOT=/p");
}

#[test]
fn other_commands() {
    let name = SessionName::from("foo-1");
    assert_eq!(
        create_tmux_session_in_group("foo", &name),
        command(&["new-session", "-ds", "foo-1", "-t", "foo"])
    );
    assert_eq!(attach_to_tmux_session_inside_tmux("a/b"), command(&["switch", "-t", "a/b"]));
    assert_eq!(tmux_has_session(&name), command(&["has-session", "-t", "foo-1"]));
    assert_eq!(show_environment(&name), command(&["showenv", "-t", "foo-1"]));
    assert_eq!(list_sessions(), command(&["list-sessions", "-F", "#{session_name}"]));
}

#[test]
fn attaching() {
    assert_eq!(
        attach_to_tmux_session("s", true, Some("/bin/zsh")),
        Attach::Switch(command(&["switch", "-t", "s"]))
    );
    assert_eq!(
        attach_to_tmux_session("s", false, Some("/bin/zsh")),
        Attach::Replace { program: "/bin/zsh".to_string(), args: strings(&["-c", "tmux attach -t s"]) }
    );
    assert_eq!(
        attach_to_tmux_session("a b", false, None),
        Attach::Replace { program: "sh".to_string(), args: strings(&["-c", "tmux attach -t a b"]) }
    );
}

#[test]
fn send_keys_commands() {
    assert_eq!(
        send_commands_to_session("s", &["ls -la", "cargo build"]),
        vec![
            command(&["send-keys", "-t", "s", "ls -la", "C-m"]),
            command(&["send-keys", "-t", "s", "cargo build", "C-m"]),
        ]
    );
    assert!(send_commands_to_session("s", &[]).is_empty());
}

#[test]
fn sessions_are_the_lines_of_the_listing() {
    assert_eq!(get_tmux_sessions("a\nfoo/bar\nb-1\n"), strings(&["a", "foo/bar", "b-1"]));
    assert_eq!(get_tmux_sessions("a\nb"), strings(&["a", "b"]));
    assert_eq!(get_tmux_sessions(""), Vec::<String>::new());
    assert_eq!(get_tmux_sessions("\n"), strings(&[""]));
    assert_eq!(get_tmux_sessions("a\r\nb\r\n"), strings(&["a", "b"]));
    assert_eq!(get_tmux_sessions("a\n\nb\r"), strings(&["a", "", "b\r"]));
    for text in ["", "\n", "a", "a\n", "a\r\n\r\nb", "\r", "x\r\ny\n\n", "\n\n"] {
        let expected: Vec<String> = text.lines().map(|l| l.to_string()).collect();
        assert_eq!(get_tmux_sessions(text), expected);
    }
}

#[test]
fn root_marker_is_read_from_the_environment() {
    let output = "SHELL=/bin/zsh\nTWM=1\nTWM_ROOT=/home/me/foo\nTWM_TYPE=rust\nTWM_NAME=foo\n";
    assert_eq!(get_twm_root_for_session(output), Some("/home/me/foo".to_string()));
    assert_eq!(get_twm_root_for_session("A=1\nB=2\n"), None);
    assert_eq!(get_twm_root_for_session(""), None);
    assert_eq!(get_twm_root_for_session("TWM_ROOT="), Some("".to_string()));
    assert_eq!(get_twm_root_for_session("XTWM_ROOT=/a\n-TWM_ROOT\n"), None);
    assert_eq!(
        get_twm_root_for_session("TWM_ROOT=/first\nTWM_ROOT=/second\n"),
        Some("/first".to_string())
    );
    assert_eq!(get_twm_root_for_session("TWM_ROOT=/a=b c\r\n"), Some("/a=b c".to_string()));
}

#[test]
fn group_names_are_numbered() {
    assert_eq!(get_group_session_name("foo", 1).as_str(), "foo-1");
    assert_eq!(get_group_session_name("foo", 2).as_str(), "foo-2");
    assert_eq!(get_group_session_name("foo/b.ar", 10).as_str(), "foo/b_ar-10");
    assert_eq!(get_group_session_name("", 0).as_str(), "-0");
    assert_eq!(
        get_group_session_name("x", u64::MAX).as_str(),
        format!("x-{}", u64::MAX)
    );
    assert_eq!(get_group_session_name("x", 1234567890).as_str(), "x-1234567890");
}

#[test]
fn picked_layout_wins() {
    let config = config_with(
        vec![layout("a", None, &["a1"]), layout("b", None, &["b1"]), layout("c", None, &["c1"])],
        vec![definition("rust", Some("c"))],
    );
    let local = TwmLayout { layout: layout("local", Some(&["b"]), &["l1"]) };
    assert_eq!(
        get_workspace_commands(Some("rust"), &config, Some("a"), Some(&local)),
        Ok(Some(vec!["a1"]))
    );
    assert_eq!(
        get_workspace_commands(Some("rust"), &config, None, Some(&local)),
        Ok(Some(vec!["b1", "l1"]))
    );
    assert_eq!(get_workspace_commands(Some("rust"), &config, None, None), Ok(Some(vec!["c1"])));
    assert_eq!(get_workspace_commands(None, &config, None, None), Ok(None));
    assert_eq!(get_workspace_commands(Some("go"), &config, None, None), Ok(None));
    assert_eq!(get_workspace_commands(None, &config, Some("ghost"), None), Ok(Some(vec![])));
}

#[test]
fn first_definition_of_the_type_gives_the_layout() {
    let config = config_with(
        vec![layout("a", None, &["a1"])],
        vec![definition("rust", None), definition("rust", Some("a")), definition("go", Some("a"))],
    );
    assert_eq!(get_workspace_commands(Some("rust"), &config, None, None), Ok(None));
    assert_eq!(get_workspace_commands(Some("go"), &config, None, None), Ok(Some(vec!["a1"])));
}

#[test]
fn cyclic_layout_is_an_error_for_the_workspace() {
    let config = config_with(
        vec![layout("a", Some(&["a"]), &["a1"])],
        vec![definition("rust", Some("a"))],
    );
    assert_eq!(
        get_workspace_commands(Some("rust"), &config, None, None),
        Err(LayoutError::InheritanceCycle { layout: "a".to_string() })
    );
}

#[test]
fn new_session_is_made_and_initialised() {
    let name = SessionName::from("foo/bar");
    let plan = open_workspace(&name, false, "/p/foo/bar", Some("rust"), false, true, None);
    assert_eq!(plan.create, Some(create_tmux_session(&name, Some("rust"), "/p/foo/bar")));
    assert_eq!(
        initialise_session(&plan, &name, &["ls", "vim"]),
        vec![
            command(&["send-keys", "-t", "foo/bar", "ls", "C-m"]),
            command(&["send-keys", "-t", "foo/bar", "vim", "C-m"]),
        ]
    );
    assert!(initialise_session(&plan, &name, &[]).is_empty());
    assert_eq!(plan.attach, Some(Attach::Switch(command(&["switch", "-t", "foo/bar"]))));
}

#[test]
fn existing_session_is_only_attached_to() {
    let name = SessionName::from("foo/bar");
    let plan = open_workspace(&name, true, "/p/foo/bar", Some("rust"), false, false, Some("bash"));
    assert_eq!(plan.create, None);
    assert!(initialise_session(&plan, &name, &["ls"]).is_empty());
    assert_eq!(
        plan.attach,
        Some(Attach::Replace {
            program: "bash".to_string(),
            args: strings(&["-c", "tmux attach -t foo/bar"]),
        })
    );
    let quiet = open_workspace(&name, true, "/p/foo/bar", None, true, false, None);
    assert_eq!(quiet.create, None);
    assert_eq!(quiet.attach, None);
}

#[test]
fn grouped_session_is_made() {
    let name = get_group_session_name("foo", 1);
    let plan = open_workspace_in_group("foo", &name, false, true, None);
    assert_eq!(plan.create, Some(command(&["new-session", "-ds", "foo-1", "-t", "foo"])));
    assert_eq!(plan.attach, Some(Attach::Switch(command(&["switch", "-t", "foo-1"]))));
    let detached = open_workspace_in_group("foo", &name, true, true, None);
    assert_eq!(detached.attach, None);
    assert!(detached.create.is_some());
}
