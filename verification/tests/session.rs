use twm::session::{
    first_free_group_name, get_session_name_recursive, group_step, GroupStep, lookup_step, more_components, open_step, separator_count,
    session_name_for_path_recursive, Claim, LookupStep, OpenStep, ResolveError, Session,
    SessionStatus, SessionTable,
};
use twm::tmux::SessionName;

fn session(name: &str, root: Option<&str>) -> Session {
    Session { name: name.to_string(), root: root.map(|r| r.to_string()) }
}

fn table(sessions: Vec<Session>) -> SessionTable {
    SessionTable::new(sessions)
}

#[test]
fn session_name_takes_last_components() {
    assert_eq!(SessionName::new("/home/vinny/projects/foo/bar", 1).as_str(), "bar");
    assert_eq!(SessionName::new("/home/vinny/projects/foo/bar", 2).as_str(), "foo/bar");
    assert_eq!(SessionName::new("/home/vinny/projects/foo/bar", 3).as_str(), "projects/foo/bar");
    assert_eq!(
        SessionName::new("/home/vinny/projects/foo/bar", 6).as_str(),
        "/home/vinny/projects/foo/bar"
    );
    assert_eq!(
        SessionName::new("/home/vinny/projects/foo/bar", 60).as_str(),
        "/home/vinny/projects/foo/bar"
    );
    assert_eq!(SessionName::new("/home/vinny/projects/foo/bar", 0).as_str(), "");
    assert_eq!(SessionName::new("", 3).as_str(), "");
    assert_eq!(SessionName::new("bar", 1).as_str(), "bar");
    assert_eq!(SessionName::new("foo/bar/", 1).as_str(), "");
    assert_eq!(SessionName::new("foo/bar/", 2).as_str(), "bar/");
    assert_eq!(SessionName::new("/a", 2).as_str(), "/a");
}

#[test]
fn session_name_replaces_dots() {
    assert_eq!(SessionName::new("/home/me/my.project/v1.2", 2).as_str(), "my_project/v1_2");
    assert_eq!(SessionName::from("a.b.c").as_str(), "a_b_c");
    assert_eq!(SessionName::from("...").as_str(), "___");
    assert_eq!(SessionName::from("plain").as_str(), "plain");
    assert_eq!(SessionName::from("").as_str(), "");
    assert_eq!(SessionName::from("a:b/c").as_str(), "a:b/c");
}

#[test]
fn status_is_classified() {
    assert_eq!(SessionStatus::Absent.claim("/p"), Claim::Free);
    assert_eq!(SessionStatus::Present { root: Some("/p".to_string()) }.claim("/p"), Claim::Ours);
    assert_eq!(SessionStatus::Present { root: Some("/q".to_string()) }.claim("/p"), Claim::Taken);
    assert_eq!(SessionStatus::Present { root: None }.claim("/p"), Claim::Taken);
}

#[test]
fn components_are_counted() {
    assert_eq!(separator_count(""), 0);
    assert_eq!(separator_count("a"), 0);
    assert_eq!(separator_count("/a/b"), 2);
    assert_eq!(separator_count("a//b/"), 3);
    assert_eq!(more_components("/a/b", 1), Some(2));
    assert_eq!(more_components("/a/b", 2), Some(3));
    assert_eq!(more_components("/a/b", 3), None);
    assert_eq!(more_components("/a/b", 30), None);
    assert_eq!(more_components("/a/b", 0), Some(1));
    assert_eq!(more_components("a", usize::MAX), None);
}

#[test]
fn open_steps() {
    assert_eq!(
        open_step("/x/foo/bar", 1, &SessionStatus::Absent),
        OpenStep::Use(SessionName::from("bar"))
    );
    assert_eq!(
        open_step("/x/foo/bar", 2, &SessionStatus::Present { root: Some("/x/foo/bar".to_string()) }),
        OpenStep::Use(SessionName::from("foo/bar"))
    );
    assert_eq!(
        open_step("/x/foo/bar", 1, &SessionStatus::Present { root: None }),
        OpenStep::Retry { components: 2 }
    );
    assert_eq!(
        open_step("/x/foo/bar", 1, &SessionStatus::Present { root: Some("/y/bar".to_string()) }),
        OpenStep::Retry { components: 2 }
    );
    assert_eq!(
        open_step("/x/foo/bar", 4, &SessionStatus::Present { root: None }),
        OpenStep::Exhausted
    );
}

#[test]
fn lookup_steps() {
    assert_eq!(lookup_step("/x/foo/bar", 1, &SessionStatus::Absent), LookupStep::Missing);
    assert_eq!(
        lookup_step("/x/foo/bar", 1, &SessionStatus::Present { root: Some("/x/foo/bar".to_string()) }),
        LookupStep::Found(SessionName::from("bar"))
    );
    assert_eq!(
        lookup_step("/x/foo/bar", 3, &SessionStatus::Present { root: None }),
        LookupStep::Retry { components: 4 }
    );
    assert_eq!(
        lookup_step("/x/foo/bar", 4, &SessionStatus::Present { root: None }),
        LookupStep::Exhausted
    );
}

#[test]
fn free_name_is_taken() {
    let sessions = table(vec![session("other", None)]);
    let name = get_session_name_recursive(&sessions, "/home/me/foo/bar", 1).unwrap();
    assert_eq!(name.as_str(), "bar");
    let name = get_session_name_recursive(&sessions, "/home/me/foo/bar", 2).unwrap();
    assert_eq!(name.as_str(), "foo/bar");
    assert_eq!(sessions.status("bar"), SessionStatus::Absent);
    assert_eq!(sessions.status("other"), SessionStatus::Present { root: None });
}

#[test]
fn foreign_session_makes_the_name_longer() {
    let sessions = table(vec![session("bar", None)]);
    let name = get_session_name_recursive(&sessions, "/home/me/foo/bar", 1).unwrap();
    assert_eq!(name.as_str(), "foo/bar");
}

#[test]
fn session_of_another_workspace_makes_the_name_longer() {
    let sessions = table(vec![
        session("bar", Some("/elsewhere/bar")),
        session("foo/bar", Some("/other/foo/bar")),
    ]);
    let name = get_session_name_recursive(&sessions, "/home/me/foo/bar", 1).unwrap();
    assert_eq!(name.as_str(), "me/foo/bar");
}

#[test]
fn own_session_is_reused() {
    let sessions = table(vec![session("bar", Some("/home/me/foo/bar"))]);
    let name = get_session_name_recursive(&sessions, "/home/me/foo/bar", 1).unwrap();
    assert_eq!(name.as_str(), "bar");
}

#[test]
fn resolving_twice_gives_the_same_name_and_attaches() {
    let path = "/home/me/foo/bar";
    let mut sessions = vec![session("bar", None), session("foo/bar", Some("/x/foo/bar"))];
    let first = get_session_name_recursive(&table(sessions.clone()), path, 1).unwrap();
    assert_eq!(first.as_str(), "me/foo/bar");
    assert_eq!(table(sessions.clone()).status(first.as_str()), SessionStatus::Absent);
    sessions.push(session(first.as_str(), Some(path)));
    let after = table(sessions);
    let second = get_session_name_recursive(&after, path, 1).unwrap();
    assert_eq!(second, first);
    assert_eq!(after.status(second.as_str()).claim(path), Claim::Ours);
    let found = session_name_for_path_recursive(&after, path, 1).unwrap();
    assert_eq!(found, Some(first));
}

#[test]
fn names_run_out() {
    let sessions = table(vec![
        session("b", None),
        session("a/b", None),
        session("/a/b", None),
    ]);
    assert_eq!(get_session_name_recursive(&sessions, "/a/b", 1), Err(ResolveError::Exhausted));
    assert_eq!(session_name_for_path_recursive(&sessions, "/a/b", 1), Err(ResolveError::Exhausted));
    assert_eq!(get_session_name_recursive(&sessions, "/a/b", 7), Err(ResolveError::Exhausted));
}

#[test]
fn lookup_finds_only_own_sessions() {
    let sessions = table(vec![
        session("bar", None),
        session("foo/bar", Some("/home/me/foo/bar")),
    ]);
    let found = session_name_for_path_recursive(&sessions, "/home/me/foo/bar", 1).unwrap();
    assert_eq!(found, Some(SessionName::from("foo/bar")));
    let missing = session_name_for_path_recursive(&sessions, "/home/me/foo/baz", 1).unwrap();
    assert_eq!(missing, None);
    let stops = session_name_for_path_recursive(&table(vec![session("bar", None)]), "/x/foo/bar", 1);
    assert_eq!(stops, Ok(None));
}

#[test]
fn first_session_of_a_name_decides() {
    let sessions = table(vec![session("bar", Some("/p/bar")), session("bar", None)]);
    assert_eq!(sessions.status("bar"), SessionStatus::Present { root: Some("/p/bar".to_string()) });
}

#[test]
fn first_free_group_name_is_taken() {
    assert_eq!(first_free_group_name(&table(vec![]), "foo").as_str(), "foo-1");
    let sessions = table(vec![
        session("foo", Some("/p/foo")),
        session("foo-1", None),
        session("foo-3", None),
        session("foo-2", None),
        session("foo-5", None),
    ]);
    assert_eq!(first_free_group_name(&sessions, "foo").as_str(), "foo-4");
    assert_eq!(first_free_group_name(&sessions, "fo").as_str(), "fo-1");
    let dotted = table(vec![session("a_b-1", None), session("a.b-2", None)]);
    assert_eq!(first_free_group_name(&dotted, "a.b").as_str(), "a_b-2");
    let many: Vec<Session> = (1..=12).map(|n| session(&format!("g-{n}"), None)).collect();
    assert_eq!(first_free_group_name(&table(many), "g").as_str(), "g-13");
}

#[test]
fn group_steps() {
    assert_eq!(group_step("foo", 1, false), GroupStep::Use(SessionName::from("foo-1")));
    assert_eq!(group_step("a.b", 12, false), GroupStep::Use(SessionName::from("a_b-12")));
    assert_eq!(group_step("foo", 1, true), GroupStep::Retry { number: 2 });
    assert_eq!(group_step("foo", 41, true), GroupStep::Retry { number: 42 });
    assert_eq!(group_step("foo", u64::MAX, true), GroupStep::Exhausted);
    assert_eq!(
        group_step("foo", u64::MAX, false),
        GroupStep::Use(SessionName::from(format!("foo-{}", u64::MAX).as_str()))
    );
}

#[test]
fn stepping_through_a_table_finds_the_first_free_group_name() {
    let sessions = table(vec![session("g-2", None), session("g-1", None), session("g-4", None)]);
    let mut number = 1;
    let name = loop {
        let candidate = format!("g-{number}");
        let taken = sessions.status(&candidate) != SessionStatus::Absent;
        match group_step("g", number, taken) {
            GroupStep::Use(name) => break name,
            GroupStep::Retry { number: next } => number = next,
            GroupStep::Exhausted => panic!("no name left"),
        }
    };
    assert_eq!(name.as_str(), "g-3");
    assert_eq!(name, first_free_group_name(&sessions, "g"));
}
