//! Error taxonomy of the backup engine. Per-repository errors are reported
//! and never stop the scheduler; only a disconnected change-signal channel is
//! fatal, and that case lives outside this library.

use vstd::prelude::*;
use crate::strutil::concat2;

verus! {

/// What went wrong during one backup attempt.
///
/// `ConflictDetected` is not a hard failure: it means the stashed work could
/// not be replayed onto the backup branch, the attempt was aborted on the
/// disposable copy, and the repository still needs a backup.
#[derive(Debug, PartialEq)]
pub enum BackupError {
    /// The watched path holds no version-control metadata directory.
    NotAGitRepository,
    /// Copying the repository tree to the scratch location failed.
    CloneCopyFailed(String),
    /// The scratch copy could not be opened as a repository.
    RepositoryOpenFailed(String),
    /// A stash, branch, checkout or commit operation failed.
    GitOperationFailed(String),
    /// Re-applying the stash onto the backup branch produced a merge conflict.
    ConflictDetected,
    /// No remote URL with a recognised scheme, or no usable credential kind.
    AuthResolutionFailed,
    /// The stored credential for the resolved authentication mode is missing.
    AuthFailed(String),
    /// Pushing the backup branch to the remote failed.
    PushFailed(String),
}

/// The text of an error, used when reporting a failed attempt.
pub open spec fn spec_describe(e: BackupError) -> Seq<char> {
    match e {
        BackupError::NotAGitRepository => "not a git repository"@,
        BackupError::CloneCopyFailed(m) => "failed to copy the repository: "@ + m@,
        BackupError::RepositoryOpenFailed(m) => "failed to open the copy: "@ + m@,
        BackupError::GitOperationFailed(m) => "git operation failed: "@ + m@,
        BackupError::ConflictDetected => "conflict detected, backup still needed"@,
        BackupError::AuthResolutionFailed => "could not resolve an authentication mode"@,
        BackupError::AuthFailed(m) => "failed to get the stored credential: "@ + m@,
        BackupError::PushFailed(m) => "failed to push the backup branch: "@ + m@,
    }
}

impl BackupError {
    /// A human-readable description of the error.
    pub fn describe(&self) -> (r: String)
        ensures
            r@ == spec_describe(*self),
    {
        match self {
            BackupError::NotAGitRepository => "not a git repository".to_owned(),
            BackupError::CloneCopyFailed(m) => concat2("failed to copy the repository: ", m.as_str()),
            BackupError::RepositoryOpenFailed(m) => concat2("failed to open the copy: ", m.as_str()),
            BackupError::GitOperationFailed(m) => concat2("git operation failed: ", m.as_str()),
            BackupError::ConflictDetected => "conflict detected, backup still needed".to_owned(),
            BackupError::AuthResolutionFailed => "could not resolve an authentication mode".to_owned(),
            BackupError::AuthFailed(m) => concat2("failed to get the stored credential: ", m.as_str()),
            BackupError::PushFailed(m) => concat2("failed to push the backup branch: ", m.as_str()),
        }
    }
}

} // verus!
