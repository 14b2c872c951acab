use git_auto_backup::ignore::{extract_rules, GitIgnoreWrapper};
use git_auto_backup::watch::{filter_event_paths, folders_to_unwatch, folders_to_watch, FileChangeSignal};

#[test]
fn rules_drop_comments_and_blank_lines() {
    let lines = vec![
        "# build artifacts".to_string(),
        "".to_string(),
        "target/".to_string(),
        "*.log".to_string(),
        "# the end".to_string(),
    ];
    assert_eq!(
        extract_rules("/repo", &lines),
        vec!["target/".to_string(), "*.log".to_string()]
    );
}

#[test]
fn well_formed_classes_braces_and_escapes_are_kept() {
    let lines = vec![
        "*.py[cod]".to_string(),
        "[build]".to_string(),
        "{tmp,out}".to_string(),
        "a\\b".to_string(),
        "!keep.log".to_string(),
    ];
    assert_eq!(extract_rules("/repo", &lines), lines);
}

#[test]
fn only_patterns_the_matcher_rejects_are_dropped() {
    let lines = vec![
        "   ".to_string(),
        "!".to_string(),
        "! \t".to_string(),
        "x[".to_string(),
        "{tmp".to_string(),
        "!keep.log".to_string(),
        "*.tmp".to_string(),
    ];
    assert_eq!(
        extract_rules("/repo", &lines),
        vec!["!keep.log".to_string(), "*.tmp".to_string()]
    );
}

#[test]
fn character_class_rules_match_as_gitignore_says() {
    let lines = vec!["*.py[cod]".to_string()];
    let wrapper = GitIgnoreWrapper::new("/repo".to_string(), &lines);
    assert!(wrapper.query("/repo/cache.pyc"));
    assert!(wrapper.query("/repo/pkg/cache.pyo"));
    assert!(!wrapper.query("/repo/cache.py"));
}

#[test]
fn hostile_gitignore_lines_never_reach_the_matcher() {
    let lines = vec!["[".to_string(), " ".to_string(), "*.log".to_string()];
    let wrapper = GitIgnoreWrapper::new("/repo".to_string(), &lines);
    assert_eq!(wrapper.rules(), &vec!["*.log".to_string()]);
    assert!(wrapper.query("/repo/debug.log"));
    assert!(!wrapper.query("/repo/notes.txt"));
}

#[test]
fn root_that_breaks_every_glob_disables_matching() {
    let lines = vec!["*.log".to_string()];
    let wrapper = GitIgnoreWrapper::new("/data/[repo".to_string(), &lines);
    assert!(wrapper.rules().is_empty());
    assert!(!wrapper.query("/data/[repo/debug.log"));
}

#[test]
fn gitignore_wrapper_matches_patterns() {
    let lines = vec!["# noise".to_string(), "*.log".to_string()];
    let wrapper = GitIgnoreWrapper::new("/repo".to_string(), &lines);
    assert!(wrapper.query("/repo/debug.log"));
    assert!(!wrapper.query("/repo/src/main.rs"));
}

#[test]
fn signal_keeps_its_fields() {
    let s = FileChangeSignal::new(vec!["/repo/a.txt".to_string()], 42);
    assert_eq!(s.paths, vec!["/repo/a.txt".to_string()]);
    assert_eq!(s.timestamp, 42);
}

#[test]
fn events_under_git_metadata_are_suppressed() {
    let noisy = vec![
        "/repo/a.txt".to_string(),
        "/repo/.git/objects/aa".to_string(),
    ];
    assert_eq!(filter_event_paths(&noisy), None);
}

#[test]
fn ordinary_events_pass_through_unchanged() {
    let clean = vec!["/repo/a.txt".to_string(), "/repo/b.txt".to_string()];
    assert_eq!(filter_event_paths(&clean), Some(clean.clone()));
    assert_eq!(filter_event_paths(&vec![]), Some(vec![]));
}

#[test]
fn watch_set_reconciliation_by_set_difference() {
    let previous = vec!["/a".to_string(), "/b".to_string()];
    let current = vec!["/b".to_string(), "/c".to_string()];
    assert_eq!(folders_to_unwatch(&previous, &current), vec!["/a".to_string()]);
    assert_eq!(folders_to_watch(&previous, &current), vec!["/c".to_string()]);
    let none: Vec<String> = vec![];
    assert_eq!(folders_to_unwatch(&current, &current), none);
}
