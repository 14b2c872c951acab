use git_auto_backup::config::{AuthMethod, Config};
use git_auto_backup::ignore::GitIgnoreWrapper;
use git_auto_backup::repo_instance::RepositoryInstance;
use git_auto_backup::scheduler::{buffer_seconds, BackupExecutor};
use git_auto_backup::tracker::RepositoryTracker;

fn instance(path: &str, rules: Vec<String>) -> RepositoryInstance {
    RepositoryInstance {
        repo_path: path.to_string(),
        tracker: RepositoryTracker::new(),
        git_ignore: GitIgnoreWrapper::new(path.to_string(), &rules),
    }
}

#[test]
fn config_defaults_and_updates() {
    let mut c = Config::new();
    assert!(c.watching_folders.is_empty());
    assert_eq!(c.backup_frequency, 30);
    assert_eq!(c.change_detection_buffer, 1);
    assert!(!c.is_inited);
    assert!(matches!(c.auth_method, AuthMethod::SSHKey(ref p) if p.is_empty()));

    c.insert_watching_folder("/a".to_string());
    c.insert_watching_folder("/b".to_string());
    c.insert_watching_folder("/a".to_string());
    assert_eq!(c.watching_folders, vec!["/a".to_string(), "/b".to_string()]);
    assert!(c.contains_folder("/a"));

    c.remove_watching_folder("/a");
    assert_eq!(c.watching_folders, vec!["/b".to_string()]);
    c.remove_watching_folder("/missing");
    assert_eq!(c.watching_folders, vec!["/b".to_string()]);

    c.set_ssh_private_key_path("/home/u/.ssh/id_rsa".to_string());
    assert!(matches!(c.auth_method, AuthMethod::SSHKey(ref p) if p == "/home/u/.ssh/id_rsa"));
    c.update_personal_access_token("token-value".to_string());
    assert!(matches!(c.auth_method, AuthMethod::PAT(_)));

    c.clean_watching_folders();
    assert!(c.watching_folders.is_empty());
}

#[test]
fn buffer_minutes_to_seconds() {
    assert_eq!(buffer_seconds(0), 0);
    assert_eq!(buffer_seconds(1), 60);
    assert_eq!(buffer_seconds(30), 1800);
    assert_eq!(buffer_seconds(u64::MAX), i64::MAX);
}

#[test]
fn executor_tracks_watched_folders() {
    let mut ex = BackupExecutor::new();
    assert_eq!(ex.repository_count(), 0);
    ex.insert_instance(instance("/repo/one", vec![]));
    ex.insert_instance(instance("/repo/two", vec![]));
    assert_eq!(ex.repository_count(), 2);
    assert!(ex.has_repository("/repo/one"));
    assert!(!ex.has_repository("/repo/three"));
    assert_eq!(ex.repo_path_at(1), "/repo/two");

    let config = vec!["/repo/two".to_string(), "/repo/three".to_string()];
    let missing = ex.missing_folders(&config);
    assert_eq!(missing, vec!["/repo/three".to_string()]);

    let doubled = vec!["/repo/three".to_string(), "/repo/three".to_string()];
    assert_eq!(
        ex.missing_folders(&doubled),
        vec!["/repo/three".to_string(), "/repo/three".to_string()]
    );

    ex.retain_configured(&config);
    assert_eq!(ex.repository_count(), 1);
    assert!(ex.has_repository("/repo/two"));
    assert!(!ex.has_repository("/repo/one"));
}

#[test]
fn change_signal_marks_first_matching_repository() {
    let mut ex = BackupExecutor::new();
    ex.insert_instance(instance("/repo/one", vec![]));
    ex.insert_instance(instance("/repo/two", vec![]));

    let paths = vec!["/elsewhere/x".to_string(), "/repo/two/src/a.rs".to_string()];
    ex.update_repo_instance_states(&paths, 500);
    assert!(!ex.is_due_at(0, 1000, 5));
    assert!(ex.is_due_at(1, 505, 5));
    assert!(!ex.is_due_at(1, 504, 5));
}

#[test]
fn ignored_changes_do_not_mark_the_repository() {
    let mut ex = BackupExecutor::new();
    ex.insert_instance(instance("/repo/one", vec!["*.log".to_string()]));
    let paths = vec!["/repo/one/debug.log".to_string()];
    ex.update_repo_instance_states(&paths, 500);
    assert!(!ex.is_due_at(0, i64::MAX, 0));
}

#[test]
fn backup_results_update_the_tracker() {
    let mut ex = BackupExecutor::new();
    ex.insert_instance(instance("/repo/one", vec![]));
    ex.update_repo_instance_states(&vec!["/repo/one/a".to_string()], 100);
    assert!(ex.is_due_at(0, 200, 5));

    ex.record_backup_result_at(0, false);
    assert!(ex.is_due_at(0, 200, 5));

    ex.record_backup_result_at(0, true);
    assert!(!ex.is_due_at(0, 200, 5));
    assert!(!ex.is_due_at(0, i64::MAX, 0));
}
