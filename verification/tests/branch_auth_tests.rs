use git_auto_backup::auth::{resolve_auth_type, AuthType};
use git_auto_backup::branch::{backup_branch_name, get_back_up_branch_name, latest_backup_branch};
use git_auto_backup::errors::BackupError;

#[test]
fn branch_name_rendering() {
    assert_eq!(
        backup_branch_name("myhost", "main", "2024-01-02_03-04-05"),
        "backup/myhost/main_2024-01-02_03-04-05"
    );
}

#[test]
fn fresh_branch_name_lies_under_backup_namespace() {
    let name = get_back_up_branch_name("main");
    assert!(name.starts_with("backup/"));
    assert!(name.contains("/main_"));
}

#[test]
fn latest_backup_empty_and_non_backup_branches() {
    assert_eq!(latest_backup_branch(&vec![]), None);
    let entries = vec![("main".to_string(), 50), ("dev".to_string(), 90)];
    assert_eq!(latest_backup_branch(&entries), None);
}

#[test]
fn latest_backup_picks_most_recent_commit_time() {
    let entries = vec![
        ("main".to_string(), 1000),
        ("backup/h/main_a".to_string(), 10),
        ("backup/h/main_b".to_string(), 30),
        ("backup/h/main_c".to_string(), 20),
    ];
    assert_eq!(latest_backup_branch(&entries), Some("backup/h/main_b".to_string()));
}

#[test]
fn latest_backup_ties_keep_the_earliest_entry() {
    let entries = vec![
        ("backup/h/one".to_string(), 30),
        ("backup/h/two".to_string(), 30),
    ];
    assert_eq!(latest_backup_branch(&entries), Some("backup/h/one".to_string()));
}

#[test]
fn latest_backup_ignores_non_positive_commit_times() {
    let entries = vec![
        ("backup/h/zero".to_string(), 0),
        ("backup/h/negative".to_string(), -5),
    ];
    assert_eq!(latest_backup_branch(&entries), None);
}

#[test]
fn auth_resolution_by_scheme() {
    assert_eq!(
        resolve_auth_type(&vec!["https://github.com/a/b.git".to_string()]),
        Ok(AuthType::Pat)
    );
    assert_eq!(
        resolve_auth_type(&vec!["git@github.com:a/b.git".to_string()]),
        Ok(AuthType::Ssh)
    );
}

#[test]
fn auth_resolution_first_recognised_scheme_wins() {
    let urls = vec![
        "ftp://old".to_string(),
        "git@github.com:a/b.git".to_string(),
        "https://github.com/a/b.git".to_string(),
    ];
    assert_eq!(resolve_auth_type(&urls), Ok(AuthType::Ssh));
}

#[test]
fn auth_resolution_fails_without_recognised_scheme() {
    assert_eq!(
        resolve_auth_type(&vec![]),
        Err(BackupError::AuthResolutionFailed)
    );
    assert_eq!(
        resolve_auth_type(&vec!["ssh://host/repo".to_string()]),
        Err(BackupError::AuthResolutionFailed)
    );
}
