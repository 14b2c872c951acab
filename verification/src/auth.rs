//! Resolving the authentication mode of a repository from its remote URLs,
//! and fetching the matching stored credential.

use vstd::prelude::*;
use crate::errors::BackupError;
use crate::gitops;
use crate::strutil::{seq_starts_with, str_starts_with};

verus! {

/// How a push authenticates: over SSH with a private key, or over HTTPS
/// with a personal access token.
#[derive(Debug, Clone, Copy, PartialEq, Eq, Structural)]
pub enum AuthType {
    Ssh,
    Pat,
}

/// Scans remote URLs in order; the first URL with a recognised scheme
/// decides: `https…` means token authentication, `git@…` means SSH.
pub open spec fn spec_resolve_auth(urls: Seq<Seq<char>>) -> Option<AuthType>
    decreases urls.len(),
{
    if urls.len() == 0 {
        None
    } else if seq_starts_with(urls[0], "https"@) {
        Some(AuthType::Pat)
    } else if seq_starts_with(urls[0], "git@"@) {
        Some(AuthType::Ssh)
    } else {
        spec_resolve_auth(urls.drop_first())
    }
}

/// Resolves the authentication mode from a list of remote URLs; fails
/// when no URL carries a recognised scheme.
pub fn resolve_auth_type(urls: &Vec<String>) -> (r: Result<AuthType, BackupError>)
    ensures
        match r {
            Ok(a) => spec_resolve_auth(urls.deep_view()) == Some(a),
            Err(e) => spec_resolve_auth(urls.deep_view()) is None
                && e == BackupError::AuthResolutionFailed,
        },
{
    let ghost full = urls.deep_view();
    assert(full.skip(0) =~= full);
    let mut i: usize = 0;
    while i < urls.len()
        invariant
            i <= full.len(),
            full == urls.deep_view(),
            spec_resolve_auth(full.skip(i as int)) == spec_resolve_auth(full),
        decreases full.len() - i,
    {
        assert(full.skip(i as int)[0] == full[i as int]);
        assert(full.skip(i as int).drop_first() =~= full.skip(i + 1));
        if str_starts_with(urls[i].as_str(), "https") {
            return Ok(AuthType::Pat);
        }
        if str_starts_with(urls[i].as_str(), "git@") {
            return Ok(AuthType::Ssh);
        }
        i += 1;
    }
    assert(full.skip(i as int) =~= Seq::<Seq<char>>::empty());
    Err(BackupError::AuthResolutionFailed)
}

/// The authentication mode of `repo`, read from its remotes.
pub fn get_auth_type(repo: &git2::Repository) -> (r: Result<AuthType, BackupError>)
    ensures
        r matches Err(e) ==> e == BackupError::AuthResolutionFailed,
{
    let urls = gitops::remote_urls(repo);
    resolve_auth_type(&urls)
}

/// The stored SSH private key path.
pub fn get_ssh_key_path() -> (r: Result<String, String>) {
    gitops::keyring_get("AUTO_GIT_SYNC", "SSH_KEY_PATH")
}

/// The stored personal access token.
pub fn get_personal_access_token() -> (r: Result<String, String>) {
    gitops::keyring_get("AUTO_GIT_SYNC", "PERSONAL_ACCESS_TOKEN")
}

} // verus!
