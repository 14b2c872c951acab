//! The isolated-clone backup engine. Every git operation targets a
//! disposable copy of the repository, never the developer's live working
//! tree; the copy is opened here and the snapshot-and-push protocol runs
//! against it. Deleting the copy is the caller's duty and is tracked by
//! the attempt lifecycle in `attempt`.

use vstd::prelude::*;
use crate::auth::{self, AuthType};
use crate::branch::{get_back_up_branch_name, spec_backup_branch_name, spec_is_backup_branch};
use crate::errors::BackupError;
use crate::gitops;
use crate::strutil::concat2;

verus! {

/// How a completed protocol run ended: nothing to snapshot, or a backup
/// branch pushed to the remote.
#[derive(Debug, PartialEq)]
pub enum BackupOutcome {
    /// The copy's working tree matched its index: nothing to back up.
    NoLocalChanges,
    /// A backup branch with this name was committed and pushed.
    Pushed(String),
}

/// The scratch location for a repository's disposable copy: a sibling
/// directory with `_temp_clone` appended.
pub fn temp_clone_path(repo_path: &str) -> (r: String)
    ensures
        r@ == repo_path@ + "_temp_clone"@,
{
    concat2(repo_path, "_temp_clone")
}

/// The scratch location never collides with the repository itself.
pub proof fn lemma_scratch_path_distinct(repo_path: Seq<char>)
    ensures
        repo_path + "_temp_clone"@ != repo_path,
{
    reveal_strlit("_temp_clone");
    assert((repo_path + "_temp_clone"@).len() == repo_path.len() + 11);
}

/// Copies the repository tree to its scratch location and returns that
/// location.
pub fn copy_directory(directory_path: &str) -> (r: Result<String, String>)
    ensures
        r matches Ok(d) ==> d@ == directory_path@ + "_temp_clone"@,
{
    let destination = temp_clone_path(directory_path);
    match gitops::copy_tree(directory_path, destination.as_str()) {
        Ok(_) => Ok(destination),
        Err(e) => Err(e),
    }
}

/// What the branch reader answers once the repository has spoken: the
/// HEAD shorthand when there is one, a fixed fallback when there is none.
pub fn branch_or_default(name: Option<String>) -> (r: String)
    ensures
        name matches Some(n) ==> r == n,
        name is None ==> r@ == "Unknown_branch"@,
{
    match name {
        Some(n) => n,
        None => "Unknown_branch".to_owned(),
    }
}

/// The short name of the branch the copy's HEAD points at, mapped through
/// `branch_or_default`; fails exactly when the wrapper cannot resolve
/// HEAD.
pub fn get_current_branch_name(repo: &git2::Repository) -> (r: Result<String, git2::Error>) {
    match gitops::head_branch_shorthand(repo) {
        Ok(name) => Ok(branch_or_default(name)),
        Err(e) => Err(e),
    }
}

/// Stashes all local modifications under the engine's fixed marker
/// message.
pub fn stash_all_changes(repo: &mut git2::Repository) -> (r: Result<(), git2::Error>) {
    gitops::stash_save_all(repo, "Git auto sync stash")
}

/// Commits the staged changes with the engine's fixed automated-backup
/// message and signature.
pub fn commit_all_changes(repo: &mut git2::Repository) -> (r: Result<(), git2::Error>) {
    gitops::commit_index_to_head(repo, "Auto Git Bot", "makeup@gmail.com", "Auto backup")
}

/// What a delta count means: the working tree differs from the index
/// exactly when at least one path differs.
pub fn deltas_mean_changes(count: usize) -> (r: bool)
    ensures
        r == (count > 0),
{
    count > 0
}

/// Whether the copy's working tree differs from its index: the trusted
/// delta count mapped through `deltas_mean_changes`.
pub fn has_local_change(repo: &git2::Repository) -> (r: Result<bool, git2::Error>) {
    match gitops::workdir_delta_count(repo) {
        Ok(count) => Ok(deltas_mean_changes(count)),
        Err(e) => Err(e),
    }
}

/// What a stash application becomes once the conflict probe has spoken:
/// a conflict aborts the attempt by hard-resetting the copy and reports
/// `ConflictDetected`; a clean application succeeds.
pub fn resolve_stash_application(repo: &mut git2::Repository, has_conflicts: bool) -> (r: Result<
    (),
    BackupError,
>)
    ensures
        !has_conflicts ==> r == Ok::<(), BackupError>(()),
        has_conflicts ==> r == Err::<(), BackupError>(BackupError::ConflictDetected) || (
        r matches Err(e) && e is GitOperationFailed),
        has_conflicts ==> r is Err,
{
    if has_conflicts {
        match gitops::hard_reset_to_head(repo) {
            Ok(_) => Err(BackupError::ConflictDetected),
            Err(e) => Err(BackupError::GitOperationFailed(gitops::git_error_message(&e))),
        }
    } else {
        Ok(())
    }
}

/// Applies the most recent stash and aborts with `ConflictDetected` when
/// the application leaves merge conflicts in the index.
pub fn try_apply_stash(repo: &mut git2::Repository) -> (r: Result<(), BackupError>)
    ensures
        r matches Err(e) ==> e == BackupError::ConflictDetected || e is GitOperationFailed,
{
    match gitops::stash_apply_latest(repo) {
        Ok(_) => {},
        Err(e) => {
            return Err(BackupError::GitOperationFailed(gitops::git_error_message(&e)));
        },
    }
    let conflicts = match gitops::index_has_conflicts(repo) {
        Ok(b) => b,
        Err(e) => {
            return Err(BackupError::GitOperationFailed(gitops::git_error_message(&e)));
        },
    };
    resolve_stash_application(repo, conflicts)
}

/// Pushes `refs/heads/<branch_name>` to `origin` with the credential of
/// the resolved authentication mode; a missing credential is an
/// authentication failure, a rejected push a push failure.
pub fn push_to_remote(
    repo: &git2::Repository,
    branch_name: &str,
    auth_type: &AuthType,
) -> (r: Result<(), BackupError>)
    ensures
        r matches Err(e) ==> e is AuthFailed || e is PushFailed,
{
    let refspec = concat2("refs/heads/", branch_name);
    let push_result = match auth_type {
        AuthType::Ssh => {
            let key_path = match auth::get_ssh_key_path() {
                Ok(p) => p,
                Err(e) => {
                    return Err(BackupError::AuthFailed(e));
                },
            };
            gitops::push_with_ssh_key(repo, "origin", refspec.as_str(), key_path.as_str())
        },
        AuthType::Pat => {
            let token = match auth::get_personal_access_token() {
                Ok(t) => t,
                Err(e) => {
                    return Err(BackupError::AuthFailed(e));
                },
            };
            gitops::push_with_token(repo, "origin", refspec.as_str(), token.as_str())
        },
    };
    match push_result {
        Ok(_) => Ok(()),
        Err(e) => Err(BackupError::PushFailed(gitops::git_error_message(&e))),
    }
}

/// A disposable, opened copy of a repository, with its scratch path and
/// the authentication mode resolved from its remotes.
pub struct TempCloneRepo {
    pub repo: git2::Repository,
    pub path: String,
    pub auth_type: AuthType,
}

impl TempCloneRepo {
    /// Copies the repository at `repo_path` to the scratch location and
    /// opens the copy. The live repository is read, never written.
    pub fn new(repo_path: &str) -> (r: Result<TempCloneRepo, BackupError>)
        ensures
            r matches Ok(t) ==> t.path@ == repo_path@ + "_temp_clone"@,
            r matches Err(e) ==> e is CloneCopyFailed || e is RepositoryOpenFailed
                || e == BackupError::AuthResolutionFailed,
    {
        let temp_clone_path = match copy_directory(repo_path) {
            Ok(p) => p,
            Err(e) => {
                return Err(BackupError::CloneCopyFailed(e));
            },
        };
        let repo = match gitops::open_repository(temp_clone_path.as_str()) {
            Ok(repo) => repo,
            Err(e) => {
                return Err(BackupError::RepositoryOpenFailed(gitops::git_error_message(&e)));
            },
        };
        let auth_type = match auth::get_auth_type(&repo) {
            Ok(auth_type) => auth_type,
            Err(_) => {
                return Err(BackupError::AuthResolutionFailed);
            },
        };
        Ok(TempCloneRepo { repo, path: temp_clone_path, auth_type })
    }

    /// One full protocol run on the copy: short-circuits when the copy
    /// shows no local changes, otherwise snapshots the work onto a fresh
    /// backup branch and pushes it.
    pub fn perform_backup(&mut self) -> (r: Result<BackupOutcome, BackupError>)
        ensures
            r matches Ok(BackupOutcome::Pushed(name)) ==> spec_is_backup_branch(name@)
                && (exists|host: Seq<char>, branch: Seq<char>, stamp: Seq<char>|
                name@ == spec_backup_branch_name(host, branch, stamp)),
            r matches Err(e) ==> e == BackupError::ConflictDetected || e is GitOperationFailed
                || e is AuthFailed || e is PushFailed,
    {
        let has_changes = match has_local_change(&self.repo) {
            Ok(b) => b,
            Err(e) => {
                return Err(BackupError::GitOperationFailed(gitops::git_error_message(&e)));
            },
        };
        self.continue_backup(has_changes)
    }

    /// The protocol after the change probe: a clean copy ends the attempt
    /// with `NoLocalChanges` and nothing is committed or pushed; a dirty
    /// copy is stashed, replayed onto a fresh backup branch, committed and
    /// pushed.
    pub fn continue_backup(&mut self, has_changes: bool) -> (r: Result<
        BackupOutcome,
        BackupError,
    >)
        ensures
            !has_changes ==> r == Ok::<BackupOutcome, BackupError>(BackupOutcome::NoLocalChanges),
            r matches Ok(BackupOutcome::Pushed(name)) ==> has_changes && spec_is_backup_branch(
                name@,
            ) && (exists|host: Seq<char>, branch: Seq<char>, stamp: Seq<char>|
                name@ == spec_backup_branch_name(host, branch, stamp)),
            has_changes && r is Ok ==> r->Ok_0 is Pushed,
            r matches Err(e) ==> e == BackupError::ConflictDetected || e is GitOperationFailed
                || e is AuthFailed || e is PushFailed,
    {
        if !has_changes {
            return Ok(BackupOutcome::NoLocalChanges);
        }
        let current_branch = match get_current_branch_name(&self.repo) {
            Ok(b) => b,
            Err(e) => {
                return Err(BackupError::GitOperationFailed(gitops::git_error_message(&e)));
            },
        };
        let backup_branch_name = get_back_up_branch_name(current_branch.as_str());
        if let Err(e) = gitops::create_branch(&self.repo, backup_branch_name.as_str()) {
            return Err(BackupError::GitOperationFailed(gitops::git_error_message(&e)));
        }
        if let Err(e) = stash_all_changes(&mut self.repo) {
            return Err(BackupError::GitOperationFailed(gitops::git_error_message(&e)));
        }
        if let Err(e) = gitops::checkout_to_branch(&self.repo, backup_branch_name.as_str()) {
            return Err(BackupError::GitOperationFailed(gitops::git_error_message(&e)));
        }
        if let Err(e) = try_apply_stash(&mut self.repo) {
            return Err(e);
        }
        if let Err(e) = gitops::stage_all_changes(&self.repo) {
            return Err(BackupError::GitOperationFailed(gitops::git_error_message(&e)));
        }
        if let Err(e) = commit_all_changes(&mut self.repo) {
            return Err(BackupError::GitOperationFailed(gitops::git_error_message(&e)));
        }
        if let Err(e) = push_to_remote(&self.repo, backup_branch_name.as_str(), &self.auth_type) {
            return Err(e);
        }
        proof {
            let (h, st) = choose|h: Seq<char>, st: Seq<char>|
                backup_branch_name@ == spec_backup_branch_name(h, current_branch@, st);
            assert(backup_branch_name@ == spec_backup_branch_name(h, current_branch@, st));
        }
        Ok(BackupOutcome::Pushed(backup_branch_name))
    }

    /// Gives the scratch path up and drops the open repository handle
    /// first, since an open handle can prevent the directory's removal.
    pub fn into_scratch_path(self) -> (r: String)
        ensures
            r@ == self.path@,
    {
        let TempCloneRepo { repo: _repo, path, auth_type: _ } = self;
        path
    }
}

} // verus!
