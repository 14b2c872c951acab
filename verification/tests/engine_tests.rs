use git_auto_backup::attempt::{AttemptPhase, BackupAttempt};
use git_auto_backup::auth::{get_auth_type, AuthType};
use git_auto_backup::branch::get_latest_backup_branch_name;
use git_auto_backup::engine::{
    branch_or_default, copy_directory, deltas_mean_changes, has_local_change,
    resolve_stash_application, temp_clone_path, BackupOutcome, TempCloneRepo,
};
use git_auto_backup::errors::BackupError;
use git_auto_backup::repo_instance::RepositoryInstance;

/// A repository with one (empty) commit, made without touching the
/// working tree; repeated runs reuse the repository as it is.
fn repo_with_commit(path: &str) -> git2::Repository {
    let repo = match git2::Repository::init(path) {
        Ok(r) => r,
        Err(e) => panic!("repository setup failed: {}", e),
    };
    if repo.head().is_err() {
        let tree_id = repo.index().and_then(|mut i| i.write_tree());
        let outcome = tree_id.and_then(|tree_id| {
            let tree = repo.find_tree(tree_id)?;
            let sig = git2::Signature::now("seed", "seed@example.com")?;
            repo.commit(Some("HEAD"), &sig, &sig, "seed", &tree, &[])?;
            Ok(())
        });
        if let Err(e) = outcome {
            panic!("seed commit failed: {}", e);
        }
    }
    repo
}

#[test]
fn scratch_location_is_a_sibling_with_suffix() {
    assert_eq!(temp_clone_path("/work/repo"), "/work/repo_temp_clone");
}

#[test]
fn delta_count_threshold() {
    assert!(!deltas_mean_changes(0));
    assert!(deltas_mean_changes(1));
    assert!(deltas_mean_changes(17));
}

#[test]
fn branch_name_fallback() {
    assert_eq!(branch_or_default(Some("main".to_string())), "main");
    assert_eq!(branch_or_default(None), "Unknown_branch");
}

#[test]
fn copying_a_missing_tree_fails() {
    assert!(copy_directory("no/such/repository/here").is_err());
}

#[test]
fn opening_a_missing_clone_fails() {
    match TempCloneRepo::new("no/such/repository/here") {
        Err(BackupError::CloneCopyFailed(_)) => {},
        other => panic!("expected a clone-copy failure, got {:?}", other.map(|_| ())),
    }
}

#[test]
fn attempt_lifecycle_reports_only_after_cleanup() {
    let mut attempt = BackupAttempt::new("no/such/repository/here".to_string());
    assert_eq!(attempt.phase(), AttemptPhase::Fresh);
    assert_eq!(attempt.scratch_path(), "no/such/repository/here_temp_clone");

    attempt.note_stale_scratch_removed();
    assert_eq!(attempt.phase(), AttemptPhase::Ready);

    attempt.run();
    assert_eq!(attempt.phase(), AttemptPhase::NeedsCleanup);

    attempt.note_scratch_removed();
    assert_eq!(attempt.phase(), AttemptPhase::Finished);

    match attempt.finish() {
        Err(BackupError::CloneCopyFailed(_)) => {},
        other => panic!("expected a clone-copy failure, got {:?}", other.map(|_| ())),
    }
}

#[test]
fn watching_a_plain_folder_is_rejected() {
    match RepositoryInstance::new("no/such/repository/here", &vec![]) {
        Err(BackupError::NotAGitRepository) => {},
        _ => panic!("expected the not-a-repository error"),
    }
}

#[test]
fn fresh_repository_has_no_changes_and_no_backups() {
    let repo = match git2::Repository::init("/tmp/git_auto_backup_fresh_probe_repo") {
        Ok(r) => r,
        Err(e) => panic!("repository setup failed: {}", e),
    };
    assert_eq!(has_local_change(&repo).ok(), Some(false));
    assert_eq!(get_latest_backup_branch_name(&repo), None);
}

#[test]
fn clean_repository_never_produces_a_backup() {
    let path = "/tmp/git_auto_backup_noop_repo";
    let repo = repo_with_commit(path);
    let mut clone_repo = TempCloneRepo {
        repo,
        path: path.to_string(),
        auth_type: AuthType::Ssh,
    };
    match clone_repo.perform_backup() {
        Ok(BackupOutcome::NoLocalChanges) => {}
        other => panic!("expected the no-op short-circuit, got {:?}", other),
    }
    let scratch = clone_repo.into_scratch_path();
    assert_eq!(scratch, path);

    let reopened = match git2::Repository::open(path) {
        Ok(r) => r,
        Err(e) => panic!("reopening failed: {}", e),
    };
    assert_eq!(get_latest_backup_branch_name(&reopened), None);
}

#[test]
fn conflict_probe_reports_conflict_detected() {
    let mut repo = repo_with_commit("/tmp/git_auto_backup_conflict_repo");
    assert_eq!(resolve_stash_application(&mut repo, false), Ok(()));
    match resolve_stash_application(&mut repo, true) {
        Err(BackupError::ConflictDetected) => {}
        other => panic!("expected the conflict report, got {:?}", other),
    }
}

#[test]
fn auth_mode_follows_the_remote_url() {
    let repo = match git2::Repository::init("/tmp/git_auto_backup_auth_probe_repo") {
        Ok(r) => r,
        Err(e) => panic!("repository setup failed: {}", e),
    };
    let _ = repo.remote("origin", "git@example.com:user/project.git");
    assert_eq!(get_auth_type(&repo).ok(), Some(AuthType::Ssh));
}
