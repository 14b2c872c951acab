//! The boundary to libgit2 (through the git2 crate) and to the other
//! platform services the backup protocol needs. Every function here is a
//! thin trusted wrapper around one outside operation; the protocol itself,
//! with its fixed messages and branch names, is composed in verified code.

use vstd::prelude::*;

verus! {

#[verifier::external_type_specification]
#[verifier::external_body]
pub struct ExGitRepository(git2::Repository);

#[verifier::external_type_specification]
#[verifier::external_body]
pub struct ExGitError(git2::Error);

/// Relies on git2::Repository::open: opens the repository at `path`.
#[verifier::external_body]
pub fn open_repository(path: &str) -> (r: Result<git2::Repository, git2::Error>) {
    git2::Repository::open(path)
}

/// Relies on git2::Error::message: the error's text.
#[verifier::external_body]
pub fn git_error_message(e: &git2::Error) -> (r: String) {
    e.message().to_string()
}

/// Relies on copy_dir::copy_dir: copies the tree under `from` to `to`.
/// Entries the crate reports as skipped are tolerated; only a copy that
/// could not start at all counts as failed.
#[verifier::external_body]
pub fn copy_tree(from: &str, to: &str) -> (r: Result<(), String>) {
    match copy_dir::copy_dir(from, to) {
        Ok(_) => Ok(()),
        Err(e) => Err(e.to_string()),
    }
}

/// Relies on git2's Repository::head and Reference::shorthand: the short
/// name of the branch HEAD points at, or `None` when the name cannot be
/// rendered as text.
#[verifier::external_body]
pub fn head_branch_shorthand(repo: &git2::Repository) -> (r: Result<
    Option<String>,
    git2::Error,
>) {
    let head = repo.head()?;
    Ok(head.shorthand().ok().map(|s| s.to_string()))
}

/// Relies on git2's Repository::refname_to_id, find_commit and branch:
/// creates a local branch named `branch_name` pointing at the current HEAD
/// commit, without forcing over an existing branch.
#[verifier::external_body]
pub fn create_branch(repo: &git2::Repository, branch_name: &str) -> (r: Result<
    (),
    git2::Error,
>) {
    let oid = repo.refname_to_id("HEAD")?;
    let commit = repo.find_commit(oid)?;
    repo.branch(branch_name, &commit, false)?;
    Ok(())
}

/// Relies on git2's Repository::signature and stash_save: stashes the
/// tracked and staged local modifications under `message`.
#[verifier::external_body]
pub fn stash_save_all(repo: &mut git2::Repository, message: &str) -> (r: Result<
    (),
    git2::Error,
>) {
    let signature = repo.signature()?;
    repo.stash_save(&signature, message, Some(git2::StashFlags::DEFAULT))?;
    Ok(())
}

/// Relies on git2's Repository::find_branch, Reference::peel,
/// checkout_tree and set_head: makes the local branch `branch_name` the
/// checked-out HEAD.
#[verifier::external_body]
pub fn checkout_to_branch(repo: &git2::Repository, branch_name: &str) -> (r: Result<
    (),
    git2::Error,
>) {
    let branch = repo.find_branch(branch_name, git2::BranchType::Local)?;
    let obj = branch.get().peel(git2::ObjectType::Commit)?;
    repo.checkout_tree(&obj, None)?;
    repo.set_head(&format!("refs/heads/{}", branch_name))?;
    Ok(())
}

/// Relies on git2::Repository::stash_apply: applies the most recent stash
/// onto the working tree, leaving any conflicts in the index.
#[verifier::external_body]
pub fn stash_apply_latest(repo: &mut git2::Repository) -> (r: Result<(), git2::Error>) {
    let mut options = git2::StashApplyOptions::default();
    repo.stash_apply(0, Some(&mut options))
}

/// Relies on git2's Repository::index and Index::has_conflicts: whether
/// the index holds unresolved merge conflicts.
#[verifier::external_body]
pub fn index_has_conflicts(repo: &git2::Repository) -> (r: Result<bool, git2::Error>) {
    Ok(repo.index()?.has_conflicts())
}

/// Relies on git2's Repository::head, Reference::peel_to_commit and reset:
/// hard-resets the working tree and index to the HEAD commit.
#[verifier::external_body]
pub fn hard_reset_to_head(repo: &git2::Repository) -> (r: Result<(), git2::Error>) {
    let head = repo.head()?.peel_to_commit()?;
    repo.reset(&head.into_object(), git2::ResetType::Hard, None)
}

/// Relies on git2's Repository::diff_index_to_workdir and Diff::deltas:
/// how many paths differ between the index and the working tree.
#[verifier::external_body]
pub fn workdir_delta_count(repo: &git2::Repository) -> (r: Result<usize, git2::Error>) {
    let mut opts = git2::DiffOptions::new();
    let diff = repo.diff_index_to_workdir(None, Some(&mut opts))?;
    Ok(diff.deltas().count())
}

/// Relies on git2's Repository::index, Index::add_all and Index::write:
/// stages every change under the repository root.
#[verifier::external_body]
pub fn stage_all_changes(repo: &git2::Repository) -> (r: Result<(), git2::Error>) {
    let mut index = repo.index()?;
    index.add_all(["."].iter(), git2::IndexAddOption::DEFAULT, None)?;
    index.write()?;
    Ok(())
}

/// Relies on git2's Index::write_tree, Signature::now and
/// Repository::commit: commits the staged index onto HEAD with the given
/// author/committer identity and message.
#[verifier::external_body]
pub fn commit_index_to_head(
    repo: &mut git2::Repository,
    name: &str,
    email: &str,
    message: &str,
) -> (r: Result<(), git2::Error>) {
    let mut index = repo.index()?;
    let tree_id = index.write_tree()?;
    let tree = repo.find_tree(tree_id)?;
    let head = repo.head()?.peel_to_commit()?;
    let signature = git2::Signature::now(name, email)?;
    repo.commit(Some("HEAD"), &signature, &signature, message, &tree, &[&head])?;
    Ok(())
}

/// Relies on git2's Repository::remotes, find_remote and Remote::url: the
/// URLs of the configured remotes, skipping remotes whose name or URL
/// cannot be read.
#[verifier::external_body]
pub fn remote_urls(repo: &git2::Repository) -> (r: Vec<String>) {
    let mut urls: Vec<String> = Vec::new();
    if let Ok(remotes) = repo.remotes() {
        for remote_name in remotes.iter() {
            let Ok(Some(name)) = remote_name else { continue };
            if let Ok(remote) = repo.find_remote(name) {
                if let Ok(url) = remote.url() {
                    urls.push(url.to_string());
                }
            }
        }
    }
    urls
}

/// Relies on git2's Repository::branches, Branch::name and
/// Reference::peel_to_commit: each local branch's name with the commit
/// time, in seconds since the epoch, of the commit it points at. Branches
/// whose name or commit cannot be read are skipped.
#[verifier::external_body]
pub fn local_branches_with_times(repo: &git2::Repository) -> (r: Vec<(String, i64)>) {
    let mut out: Vec<(String, i64)> = Vec::new();
    if let Ok(branches) = repo.branches(Some(git2::BranchType::Local)) {
        for entry in branches.flatten() {
            let (branch, _) = entry;
            if let (Ok(Some(name)), Ok(commit)) = (branch.name(), branch.get().peel_to_commit()) {
                out.push((name.to_string(), commit.time().seconds()));
            }
        }
    }
    out
}

/// Relies on git2's Remote::push with an SSH-key credential callback
/// (Cred::ssh_key, user `git`): pushes `refspec` to the remote named
/// `remote_name`.
#[verifier::external_body]
pub fn push_with_ssh_key(
    repo: &git2::Repository,
    remote_name: &str,
    refspec: &str,
    key_path: &str,
) -> (r: Result<(), git2::Error>) {
    let mut remote = repo.find_remote(remote_name)?;
    let key_path = key_path.to_string();
    let mut callbacks = git2::RemoteCallbacks::new();
    callbacks.credentials(move |_url, _username, _allowed| {
        git2::Cred::ssh_key("git", None, std::path::Path::new(&key_path), None)
    });
    let mut push_options = git2::PushOptions::new();
    push_options.remote_callbacks(callbacks);
    remote.push(&[refspec], Some(&mut push_options))
}

/// Relies on git2's Remote::push with a plain-text credential callback
/// (Cred::userpass_plaintext, token as user name and password): pushes
/// `refspec` to the remote named `remote_name`.
#[verifier::external_body]
pub fn push_with_token(
    repo: &git2::Repository,
    remote_name: &str,
    refspec: &str,
    token: &str,
) -> (r: Result<(), git2::Error>) {
    let mut remote = repo.find_remote(remote_name)?;
    let token = token.to_string();
    let mut callbacks = git2::RemoteCallbacks::new();
    callbacks.credentials(move |_url, _username, _allowed| {
        git2::Cred::userpass_plaintext(&token, &token)
    });
    let mut push_options = git2::PushOptions::new();
    push_options.remote_callbacks(callbacks);
    remote.push(&[refspec], Some(&mut push_options))
}

/// Relies on keyring's Entry::new and Entry::get_password: the secret
/// stored for `service`/`user` in the platform credential store.
#[verifier::external_body]
pub fn keyring_get(service: &str, user: &str) -> (r: Result<String, String>) {
    match keyring::Entry::new(service, user) {
        Ok(entry) => match entry.get_password() {
            Ok(secret) => Ok(secret),
            Err(e) => Err(e.to_string()),
        },
        Err(e) => Err(e.to_string()),
    }
}

} // verus!
