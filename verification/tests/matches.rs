use twm::config::{RawTwmGlobal, TwmGlobal};
use twm::matches::{find_workspaces_in_dir, split_path, WalkEntry};
use twm::workspace::{
    DirectoryFiles, HasAnyFileCondition, WorkspaceConditionEnum, WorkspaceDefinition,
};

fn strings(items: &[&str]) -> Vec<String> {
    items.iter().map(|s| s.to_string()).collect()
}

fn config(max_depth: usize, excluded: &[&str]) -> TwmGlobal {
    let mut config = TwmGlobal::with_search_paths(RawTwmGlobal::default(), strings(&["/r"]));
    config.max_search_depth = max_depth;
    config.exclude_path_components = strings(excluded);
    config.workspace_definitions = vec![WorkspaceDefinition {
        name: "git".to_string(),
        conditions: vec![WorkspaceConditionEnum::HasAnyFileCondition(HasAnyFileCondition {
            files: strings(&[".git"]),
        })],
        default_layout: None,
    }];
    config
}

fn entry(path: &str, is_dir: bool, files: &[&str]) -> WalkEntry {
    WalkEntry { path: path.to_string(), is_dir, files: DirectoryFiles::new(strings(files)) }
}

#[test]
fn paths_are_split_at_separators() {
    assert_eq!(split_path("/home/me/foo"), strings(&["home", "me", "foo"]));
    assert_eq!(split_path("a/b"), strings(&["a", "b"]));
    assert_eq!(split_path("a//b/"), strings(&["a", "b"]));
    assert_eq!(split_path("./a"), strings(&[".", "a"]));
    assert_eq!(split_path("/"), Vec::<String>::new());
    assert_eq!(split_path(""), Vec::<String>::new());
    assert_eq!(split_path("one"), strings(&["one"]));
    assert_eq!(split_path("//x"), strings(&["x"]));
}

#[test]
fn nothing_under_an_excluded_directory_is_found() {
    let config = config(5, &["node_modules"]);
    let entries = vec![
        entry("/r", true, &[]),
        entry("/r/proj", true, &[".git"]),
        entry("/r/proj/node_modules", true, &[".git"]),
        entry("/r/proj/node_modules/pkg", true, &[".git"]),
        entry("/r/proj/node_modules/pkg/deep", true, &[".git"]),
    ];
    assert_eq!(find_workspaces_in_dir("/r", &entries, &config), strings(&["/r/proj"]));
    assert!(entries[1].should_descend("/r", &config));
    assert!(!entries[2].should_descend("/r", &config));
    assert!(!entries[3].should_descend("/r", &config));
    assert!(entries[2].pruned(&config.exclude_path_components));
    assert!(entries[4].pruned(&config.exclude_path_components));
    assert!(!entries[1].pruned(&config.exclude_path_components));
    assert!(!entries[3].is_workspace("/r", &config));
}

#[test]
fn exclusion_is_by_whole_name_and_case() {
    let config = config(5, &["target"]);
    let entries = vec![
        entry("/r/Target", true, &[".git"]),
        entry("/r/targets", true, &[".git"]),
        entry("/r/target", true, &[".git"]),
    ];
    assert_eq!(
        find_workspaces_in_dir("/r", &entries, &config),
        strings(&["/r/Target", "/r/targets"])
    );
}

#[test]
fn excluded_search_path_gives_nothing() {
    let config = config(5, &["r"]);
    let entries = vec![entry("/r", true, &[".git"]), entry("/r/a", true, &[".git"])];
    assert!(find_workspaces_in_dir("/r", &entries, &config).is_empty());
}

#[test]
fn search_path_below_an_excluded_directory_gives_nothing() {
    let config = config(5, &[".cache"]);
    let entries = vec![
        entry("/home/me/.cache/code", true, &[".git"]),
        entry("/home/me/.cache/code/a", true, &[".git"]),
    ];
    assert!(find_workspaces_in_dir("/home/me/.cache/code", &entries, &config).is_empty());
    assert!(!entries[0].should_descend("/home/me/.cache/code", &config));
    let elsewhere = vec![entry("/home/me/code/a", true, &[".git"])];
    assert_eq!(
        find_workspaces_in_dir("/home/me/code", &elsewhere, &config),
        strings(&["/home/me/code/a"])
    );
}

#[test]
fn an_empty_excluded_name_excludes_nothing() {
    let config = config(5, &[""]);
    let entries = vec![entry("/r//a/", true, &[".git"])];
    assert_eq!(find_workspaces_in_dir("/r", &entries, &config), strings(&["/r//a/"]));
}

#[test]
fn search_stops_at_the_depth_given() {
    let config = config(1, &[]);
    let entries = vec![
        entry("/r", true, &[]),
        entry("/r/a", true, &[".git"]),
        entry("/r/a/b", true, &[".git"]),
    ];
    assert_eq!(find_workspaces_in_dir("/r", &entries, &config), strings(&["/r/a"]));
    assert!(entries[0].should_descend("/r", &config));
    assert!(!entries[1].should_descend("/r", &config));
    assert!(entries[1].visited("/r", &config));
    assert!(!entries[2].visited("/r", &config));
    assert_eq!(entries[2].depth_below("/r"), Some(2));
    assert_eq!(entries[0].depth_below("/r"), Some(0));
    assert_eq!(entries[0].depth_below("/r/"), Some(0));
    assert_eq!(entries[2].depth_below("/"), Some(3));
}

#[test]
fn depth_is_counted_from_each_search_path() {
    let config = config(1, &[]);
    let entries = vec![entry("/deep/down/r/a", true, &[".git"]), entry("/deep/down/r/a/b", true, &[".git"])];
    assert_eq!(
        find_workspaces_in_dir("/deep/down/r", &entries, &config),
        strings(&["/deep/down/r/a"])
    );
    assert_eq!(find_workspaces_in_dir("/deep/down/r/a", &entries, &config).len(), 2);
}

#[test]
fn entries_that_are_not_below_the_search_path_are_no_candidates() {
    let config = config(5, &[]);
    let entries = vec![
        entry("/other/a", true, &[".git"]),
        entry("/ra", true, &[".git"]),
        entry("/", true, &[".git"]),
    ];
    assert!(find_workspaces_in_dir("/r", &entries, &config).is_empty());
    assert_eq!(entries[0].depth_below("/r"), None);
    assert_eq!(entries[1].depth_below("/r"), None);
    assert!(!entries[0].should_descend("/r", &config));
}

#[test]
fn depth_zero_looks_at_the_search_path_alone() {
    let config = config(0, &[]);
    let entries = vec![entry("/r", true, &[".git"]), entry("/r/a", true, &[".git"])];
    assert_eq!(find_workspaces_in_dir("/r", &entries, &config), strings(&["/r"]));
    assert!(!entries[0].should_descend("/r", &config));
}

#[test]
fn files_and_unmatched_directories_are_no_candidates() {
    let config = config(3, &[]);
    let entries = vec![
        entry("/r/file", false, &[".git"]),
        entry("/r/plain", true, &["README"]),
        entry("/r/ws", true, &["README", ".git"]),
        entry("/r/ws", true, &[".git"]),
    ];
    assert_eq!(find_workspaces_in_dir("/r", &entries, &config), strings(&["/r/ws", "/r/ws"]));
    assert!(!entries[0].should_descend("/r", &config));
    assert!(entries[1].should_descend("/r", &config));
    assert!(find_workspaces_in_dir("/r", &[], &config).is_empty());
}

#[test]
fn without_definitions_nothing_is_found() {
    let mut config = config(3, &[]);
    config.workspace_definitions = vec![];
    let entries = vec![entry("/r/ws", true, &[".git"])];
    assert!(find_workspaces_in_dir("/r", &entries, &config).is_empty());
}
