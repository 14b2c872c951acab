//! Filesystem path conventions: where the configuration file lives, home
//! directory expansion, and the probes that tell a git repository apart
//! from an ordinary folder.

use vstd::prelude::*;
use vstd::string::StrSliceExecFns;
use crate::strutil::{concat2, seq_starts_with, str_starts_with};

verus! {

/// Relies on dirs::home_dir: the current user's home directory, as the
/// platform reports it. The result depends on the environment, so nothing
/// is assumed about its value.
#[verifier::external_body]
fn home_dir_string() -> (r: Option<String>) {
    match dirs::home_dir() {
        Some(p) => match p.to_str() {
            Some(s) => Some(s.to_string()),
            None => None,
        },
        None => None,
    }
}

/// Relies on std::path::Path::exists: whether `path` names an existing
/// filesystem entry. The result depends on the state of the disk.
#[verifier::external_body]
pub fn is_path_exist(path: &str) -> (r: bool) {
    std::path::Path::new(path).exists()
}

/// Relies on std::path::Path::join and Path::exists: whether `path` holds a
/// `.git` metadata directory, i.e. looks like a git repository on disk.
#[verifier::external_body]
pub fn is_git_repository(path: &str) -> (r: bool) {
    std::path::Path::new(path).join(".git").exists()
}

/// Replaces a leading `~` with the home directory; any other path is
/// returned unchanged.
pub fn expand_home_path(path: &str, home: &str) -> (r: String)
    ensures
        seq_starts_with(path@, "~"@) ==> r@ == home@ + path@.subrange(1, path@.len() as int),
        !seq_starts_with(path@, "~"@) ==> r@ == path@,
{
    if str_starts_with(path, "~") {
        proof {
            reveal_strlit("~");
        }
        let rest = path.substring_char(1, path.unicode_len());
        concat2(home, rest)
    } else {
        path.to_owned()
    }
}

/// The platform prefix under which the configuration directory is created:
/// the home directory with `/.config` appended. Fails when the platform
/// reports no home directory.
pub fn get_config_path_prefix() -> (r: Result<String, String>)
    ensures
        r matches Ok(p) ==> exists|home: Seq<char>| p@ == home + "/.config"@,
{
    match home_dir_string() {
        Some(home) => {
            let p = expand_home_path("~/.config", home.as_str());
            proof {
                reveal_strlit("~");
                reveal_strlit("~/.config");
                reveal_strlit("/.config");
                assert("~/.config"@.subrange(0, "~"@.len() as int) =~= "~"@);
                assert(seq_starts_with("~/.config"@, "~"@));
                assert("~/.config"@.subrange(1, "~/.config"@.len() as int) =~= "/.config"@);
                assert(p@ == home@ + "/.config"@);
            }
            Ok(p)
        },
        None => Err("failed to get the home directory".to_owned()),
    }
}

/// Where the configuration file lives: `<prefix>/AutoGitSync/config.json`.
pub fn get_config_path() -> (r: Result<String, String>)
    ensures
        r matches Ok(p) ==> exists|home: Seq<char>|
            p@ == home + "/.config/AutoGitSync/config.json"@,
{
    let prefix = match get_config_path_prefix() {
        Ok(prefix) => prefix,
        Err(e) => {
            return Err(e);
        },
    };
    let p = concat2(prefix.as_str(), "/AutoGitSync/config.json");
    proof {
        let home = choose|home: Seq<char>| prefix@ == home + "/.config"@;
        reveal_strlit("/.config");
        reveal_strlit("/AutoGitSync/config.json");
        reveal_strlit("/.config/AutoGitSync/config.json");
        assert(p@ =~= home + "/.config/AutoGitSync/config.json"@);
    }
    Ok(p)
}

} // verus!
