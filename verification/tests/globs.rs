use monzilla_rs::{gather_paths, GlobEntry, Notice};

fn found(path: &str) -> GlobEntry {
    GlobEntry::Found(path.to_string())
}

fn unreadable(reason: &str) -> GlobEntry {
    GlobEntry::Unreadable(reason.to_string())
}

#[test]
fn found_paths_are_added_in_order() {
    let mut paths = vec!["first.txt".to_string()];
    let notices = gather_paths("*.txt", &vec![found("a.txt"), found("b.txt")], &mut paths);
    assert_eq!(paths, vec!["first.txt", "a.txt", "b.txt"]);
    assert_eq!(notices, vec![]);
}

#[test]
fn unreadable_entries_become_warnings_that_name_the_glob() {
    let mut paths = Vec::new();
    let entries = vec![
        unreadable("Permission denied"),
        found("x/a.rs"),
        unreadable("Input/output error"),
        found("x/b.rs"),
    ];
    let notices = gather_paths("x/**/*.rs", &entries, &mut paths);
    assert_eq!(paths, vec!["x/a.rs", "x/b.rs"]);
    assert_eq!(
        notices,
        vec![
            Notice::UnreadableEntry("x/**/*.rs".to_string(), "Permission denied".to_string()),
            Notice::UnreadableEntry("x/**/*.rs".to_string(), "Input/output error".to_string()),
        ]
    );
}

#[test]
fn a_glob_that_matches_nothing_adds_nothing() {
    let mut paths = vec!["kept".to_string()];
    let notices = gather_paths("*.none", &vec![], &mut paths);
    assert_eq!(paths, vec!["kept"]);
    assert_eq!(notices, vec![]);
}
