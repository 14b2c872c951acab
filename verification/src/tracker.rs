//! Per-repository dirty/debounce state: decides when a repository has been
//! quiet for long enough after its last observed change to be worth backing up.

use vstd::prelude::*;

verus! {

/// Dirty flag and timestamp of the last observed change, in seconds since
/// the Unix epoch. A repository becomes due for a backup only when it is
/// dirty and the quiescence buffer has elapsed since the last change.
pub struct RepositoryTracker {
    pub dirty: bool,
    pub last_change_at: Option<i64>,
}

impl RepositoryTracker {
    /// Whether the tracker says a backup is due at time `now` with the
    /// given quiescence buffer (both in seconds).
    pub open spec fn spec_is_due(self, now: i64, buffer: i64) -> bool {
        &&& self.dirty
        &&& self.last_change_at is Some
        &&& now - self.last_change_at->0 >= buffer
    }

    pub fn new() -> (r: RepositoryTracker)
        ensures
            !r.dirty,
            r.last_change_at is None,
    {
        RepositoryTracker { dirty: false, last_change_at: None }
    }

    /// A change was observed at `timestamp`; the most recent change wins.
    pub fn mark_changed(&mut self, timestamp: i64)
        ensures
            final(self).dirty,
            final(self).last_change_at == Some(timestamp),
    {
        self.dirty = true;
        self.last_change_at = Some(timestamp);
    }

    /// The debounce decision: true iff the repository is dirty and has been
    /// quiet for at least `buffer` seconds before `now`.
    pub fn is_due(&self, now: i64, buffer: i64) -> (r: bool)
        ensures
            r == self.spec_is_due(now, buffer),
    {
        if !self.dirty {
            return false;
        }
        match self.last_change_at {
            None => false,
            Some(last) => (now as i128) - (last as i128) >= (buffer as i128),
        }
    }

    /// A backup captured the repository's state: it is clean again.
    pub fn on_backup_success(&mut self)
        ensures
            !final(self).dirty,
            final(self).last_change_at is None,
    {
        self.dirty = false;
        self.last_change_at = None;
    }

    /// A backup attempt failed: the repository stays dirty and the timer is
    /// not advanced, so the next cycle retries immediately.
    pub fn on_backup_failure(&mut self)
        ensures
            *final(self) == *old(self),
    {
    }
}

/// The tracker after a sequence of change signals, in order.
pub open spec fn spec_after_changes(t: RepositoryTracker, times: Seq<i64>) -> RepositoryTracker
    decreases times.len(),
{
    if times.len() == 0 {
        t
    } else {
        spec_after_changes(
            RepositoryTracker { dirty: true, last_change_at: Some(times[0]) },
            times.drop_first(),
        )
    }
}

/// After any sequence of change signals, the tracker remembers exactly
/// the most recent one.
pub proof fn lemma_last_change_wins(t: RepositoryTracker, times: Seq<i64>)
    requires
        times.len() > 0,
    ensures
        spec_after_changes(t, times).dirty,
        spec_after_changes(t, times).last_change_at == Some(times.last()),
    decreases times.len(),
{
    let marked = RepositoryTracker { dirty: true, last_change_at: Some(times[0]) };
    if times.len() == 1 {
        assert(times.drop_first().len() == 0);
        assert(spec_after_changes(marked, times.drop_first()) == marked);
        assert(times.last() == times[0]);
    } else {
        lemma_last_change_wins(marked, times.drop_first());
        assert(times.drop_first().last() == times.last());
    }
}

/// Debounce: for every sequence of change signals, the tracker is not due
/// until the quiescence buffer has elapsed after the last signal.
pub proof fn lemma_debounce(t: RepositoryTracker, times: Seq<i64>, now: i64, buffer: i64)
    requires
        times.len() > 0,
        now - times.last() < buffer,
    ensures
        !spec_after_changes(t, times).spec_is_due(now, buffer),
{
    lemma_last_change_wins(t, times);
}

/// Idempotence of consecutive due-cycles: a tracker left clean by a
/// successful backup is not due at any later time with any buffer, so a
/// second cycle without intervening changes starts no second backup.
pub proof fn lemma_clean_never_due(t: RepositoryTracker, now: i64, buffer: i64)
    requires
        !t.dirty,
    ensures
        !t.spec_is_due(now, buffer),
{
}

} // verus!
