use git_auto_backup::tracker::RepositoryTracker;

#[test]
fn new_tracker_is_clean_and_never_due() {
    let t = RepositoryTracker::new();
    assert!(!t.dirty);
    assert!(t.last_change_at.is_none());
    assert!(!t.is_due(i64::MAX, 0));
}

#[test]
fn debounce_holds_until_buffer_elapses() {
    let mut t = RepositoryTracker::new();
    t.mark_changed(100);
    assert!(!t.is_due(100, 5));
    assert!(!t.is_due(104, 5));
    assert!(t.is_due(105, 5));
    assert!(t.is_due(200, 5));
}

#[test]
fn later_change_restarts_the_buffer() {
    let mut t = RepositoryTracker::new();
    t.mark_changed(100);
    t.mark_changed(103);
    assert!(!t.is_due(105, 5));
    assert!(!t.is_due(107, 5));
    assert!(t.is_due(108, 5));
}

#[test]
fn success_resets_and_second_cycle_skips() {
    let mut t = RepositoryTracker::new();
    t.mark_changed(100);
    assert!(t.is_due(200, 5));
    t.on_backup_success();
    assert!(!t.dirty);
    assert!(t.last_change_at.is_none());
    assert!(!t.is_due(200, 5));
    assert!(!t.is_due(i64::MAX, 0));
}

#[test]
fn failure_keeps_the_repository_due() {
    let mut t = RepositoryTracker::new();
    t.mark_changed(100);
    assert!(t.is_due(200, 5));
    t.on_backup_failure();
    assert!(t.dirty);
    assert_eq!(t.last_change_at, Some(100));
    assert!(t.is_due(200, 5));
}

#[test]
fn extreme_timestamps_do_not_overflow() {
    let mut t = RepositoryTracker::new();
    t.mark_changed(i64::MIN);
    assert!(t.is_due(i64::MAX, i64::MAX));
    t.mark_changed(i64::MAX);
    assert!(!t.is_due(i64::MIN, 1));
}
