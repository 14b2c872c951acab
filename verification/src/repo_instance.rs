//! One watched repository: its path, its gitignore rules, and the
//! dirty/debounce state that decides when it is due for a backup.

use vstd::prelude::*;
use crate::errors::BackupError;
use crate::ignore::{gitignore_ignores, spec_rule_lines, GitIgnoreWrapper};
use crate::paths::is_git_repository;
use crate::tracker::RepositoryTracker;

verus! {

/// A watched repository with its debounce state.
pub struct RepositoryInstance {
    pub repo_path: String,
    pub tracker: RepositoryTracker,
    pub git_ignore: GitIgnoreWrapper,
}

impl RepositoryInstance {
    /// The gitignore rules are rooted at the repository itself.
    pub open spec fn wf(self) -> bool {
        self.git_ignore.spec_root() == self.repo_path@
    }

    /// Whether the repository ignores a changed path.
    pub open spec fn spec_ignores(self, path: Seq<char>) -> bool {
        gitignore_ignores(self.git_ignore.spec_root(), self.git_ignore.spec_rules(), path)
    }

    /// Watches the repository at `repo_path`, starting clean. The caller
    /// supplies the lines of the repository's `.gitignore` file (none
    /// when the file does not exist). A path without version-control
    /// metadata is rejected.
    pub fn new(repo_path: &str, gitignore_lines: &Vec<String>) -> (r: Result<
        RepositoryInstance,
        BackupError,
    >)
        ensures
            r matches Ok(inst) ==> {
                &&& inst.wf()
                &&& inst.repo_path@ == repo_path@
                &&& !inst.tracker.dirty
                &&& inst.tracker.last_change_at is None
                &&& inst.git_ignore.spec_rules() == spec_rule_lines(
                    repo_path@,
                    gitignore_lines.deep_view(),
                )
            },
            r matches Err(e) ==> e == BackupError::NotAGitRepository,
    {
        if !is_git_repository(repo_path) {
            return Err(BackupError::NotAGitRepository);
        }
        let git_ignore = GitIgnoreWrapper::new(repo_path.to_owned(), gitignore_lines);
        Ok(
            RepositoryInstance {
                repo_path: repo_path.to_owned(),
                tracker: RepositoryTracker::new(),
                git_ignore,
            },
        )
    }

    /// A change under the repository was observed at `timestamp`: ignored
    /// paths leave the state untouched, any other path marks the
    /// repository dirty and restarts the quiescence buffer.
    pub fn handle_file_change(&mut self, path: &str, timestamp: i64)
        ensures
            old(self).spec_ignores(path@) ==> *final(self) == *old(self),
            !old(self).spec_ignores(path@) ==> {
                &&& final(self).tracker.dirty
                &&& final(self).tracker.last_change_at == Some(timestamp)
                &&& final(self).repo_path == old(self).repo_path
                &&& final(self).git_ignore == old(self).git_ignore
            },
    {
        let is_ignored = self.git_ignore.query(path);
        if is_ignored {
            return;
        }
        self.tracker.mark_changed(timestamp);
    }

    /// The debounce decision at time `now` with the quiescence buffer in
    /// seconds.
    pub fn should_perform_backup(&self, now: i64, buffer_seconds: i64) -> (r: bool)
        ensures
            r == self.tracker.spec_is_due(now, buffer_seconds),
    {
        self.tracker.is_due(now, buffer_seconds)
    }

    /// Records how a backup attempt ended: a successful attempt leaves
    /// the repository clean, a failed one leaves the dirty state and the
    /// timer untouched so the next cycle retries.
    pub fn record_backup_result(&mut self, succeeded: bool)
        ensures
            succeeded ==> {
                &&& !final(self).tracker.dirty
                &&& final(self).tracker.last_change_at is None
                &&& final(self).repo_path == old(self).repo_path
                &&& final(self).git_ignore == old(self).git_ignore
            },
            !succeeded ==> *final(self) == *old(self),
    {
        if succeeded {
            self.tracker.on_backup_success();
        }
    }
}

} // verus!
