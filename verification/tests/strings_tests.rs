use git_auto_backup::errors::BackupError;
use git_auto_backup::paths::{expand_home_path, get_config_path, is_git_repository, is_path_exist};
use git_auto_backup::strutil::{concat2, concat3, str_contains, str_eq, str_starts_with, vec_contains_str};

#[test]
fn starts_with_cases() {
    assert!(str_starts_with("https://example.com", "https"));
    assert!(str_starts_with("git@github.com:a/b.git", "git@"));
    assert!(str_starts_with("abc", ""));
    assert!(str_starts_with("abc", "abc"));
    assert!(!str_starts_with("ab", "abc"));
    assert!(!str_starts_with("ssh://host", "git@"));
}

#[test]
fn contains_cases() {
    assert!(str_contains("/repo/.git/index", ".git"));
    assert!(str_contains(".git", ".git"));
    assert!(str_contains("abc", ""));
    assert!(!str_contains("/repo/src/main.rs", ".git"));
    assert!(!str_contains("ab", "abc"));
}

#[test]
fn equality_and_concat() {
    assert!(str_eq("same", "same"));
    assert!(!str_eq("same", "Same"));
    assert_eq!(concat2("a/", "b"), "a/b");
    assert_eq!(concat3("a", "-", "b"), "a-b");
}

#[test]
fn vector_membership() {
    let v = vec!["one".to_string(), "two".to_string()];
    assert!(vec_contains_str(&v, "two"));
    assert!(!vec_contains_str(&v, "three"));
}

#[test]
fn home_expansion() {
    assert_eq!(expand_home_path("~/.config", "/home/u"), "/home/u/.config");
    assert_eq!(expand_home_path("~", "/home/u"), "/home/u");
    assert_eq!(expand_home_path("/etc/passwd", "/home/u"), "/etc/passwd");
}

#[test]
fn config_path_shape() {
    if let Ok(p) = get_config_path() {
        assert!(p.ends_with("/.config/AutoGitSync/config.json"));
    }
}

#[test]
fn path_probes() {
    assert!(is_path_exist("."));
    assert!(!is_path_exist("no/such/path/anywhere/here"));
    assert!(!is_git_repository("no/such/path/anywhere/here"));
}

#[test]
fn error_descriptions() {
    assert_eq!(BackupError::NotAGitRepository.describe(), "not a git repository");
    assert_eq!(
        BackupError::CloneCopyFailed("disk full".to_string()).describe(),
        "failed to copy the repository: disk full"
    );
    assert_eq!(
        BackupError::ConflictDetected.describe(),
        "conflict detected, backup still needed"
    );
    assert_eq!(
        BackupError::AuthResolutionFailed.describe(),
        "could not resolve an authentication mode"
    );
    assert_eq!(
        BackupError::PushFailed("denied".to_string()).describe(),
        "failed to push the backup branch: denied"
    );
}
