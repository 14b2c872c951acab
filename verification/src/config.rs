//! The persisted configuration: the set of watched folders, the backup
//! frequency, the quiescence buffer and the stored authentication mode.
//! Reading and writing the on-disk form is left to the caller; this module
//! holds the value and the rules for changing it.

use vstd::prelude::*;
use crate::strutil::str_eq;

verus! {

/// How pushes authenticate against the remote.
#[derive(Debug, PartialEq)]
pub enum AuthMethod {
    /// Path of the SSH private key.
    SSHKey(String),
    /// Personal access token used as both user name and password.
    PAT(String),
}

/// In-memory configuration. `watching_folders` holds each folder at most
/// once; the frequencies are in minutes.
#[derive(Debug)]
pub struct Config {
    pub watching_folders: Vec<String>,
    pub backup_frequency: u64,
    pub change_detection_buffer: u64,
    pub is_inited: bool,
    pub auth_method: AuthMethod,
}

impl Config {
    /// The folders are pairwise distinct.
    pub open spec fn wf(self) -> bool {
        forall|i: int, j: int|
            0 <= i < j < self.watching_folders.deep_view().len()
                ==> self.watching_folders.deep_view()[i] != self.watching_folders.deep_view()[j]
    }

    /// Whether `folder` is already watched.
    pub open spec fn spec_watches(self, folder: Seq<char>) -> bool {
        self.watching_folders.deep_view().contains(folder)
    }

    pub fn new() -> (r: Config)
        ensures
            r.watching_folders.deep_view() == Seq::<Seq<char>>::empty(),
            r.backup_frequency == 30,
            r.change_detection_buffer == 1,
            !r.is_inited,
            r.auth_method matches AuthMethod::SSHKey(p) && p@.len() == 0,
            r.wf(),
    {
        let folders: Vec<String> = Vec::new();
        assert(folders.deep_view() =~= Seq::<Seq<char>>::empty());
        Config {
            watching_folders: folders,
            backup_frequency: 30,
            change_detection_buffer: 1,
            is_inited: false,
            auth_method: AuthMethod::SSHKey(String::new()),
        }
    }

    /// Whether `folder` is in the watch list.
    pub fn contains_folder(&self, folder: &str) -> (r: bool)
        ensures
            r == self.spec_watches(folder@),
    {
        let mut i: usize = 0;
        while i < self.watching_folders.len()
            invariant
                i <= self.watching_folders.deep_view().len(),
                forall|j: int| 0 <= j < i ==> self.watching_folders.deep_view()[j] != folder@,
            decreases self.watching_folders.len() - i,
        {
            if str_eq(self.watching_folders[i].as_str(), folder) {
                assert(self.watching_folders.deep_view()[i as int] == folder@);
                return true;
            }
            i += 1;
        }
        assert(forall|j: int|
            0 <= j < self.watching_folders.deep_view().len()
                ==> self.watching_folders.deep_view()[j] != folder@);
        false
    }

    /// Adds a folder to the watch list; adding one that is already watched
    /// changes nothing.
    pub fn insert_watching_folder(&mut self, folder: String)
        requires
            old(self).wf(),
        ensures
            final(self).wf(),
            old(self).spec_watches(folder@) ==> *final(self) == *old(self),
            !old(self).spec_watches(folder@) ==> final(self).watching_folders.deep_view()
                == old(self).watching_folders.deep_view().push(folder@),
            final(self).backup_frequency == old(self).backup_frequency,
            final(self).change_detection_buffer == old(self).change_detection_buffer,
            final(self).is_inited == old(self).is_inited,
            final(self).auth_method == old(self).auth_method,
    {
        let ghost orig = self.watching_folders.deep_view();
        let ghost fseq = folder@;
        if self.contains_folder(folder.as_str()) {
            return;
        }
        self.watching_folders.push(folder);
        assert(self.watching_folders.deep_view() =~= orig.push(fseq));
        assert forall|a: int, b: int|
            0 <= a < b < self.watching_folders.deep_view().len()
                implies self.watching_folders.deep_view()[a]
                != self.watching_folders.deep_view()[b] by {
            if b == orig.len() && orig[a] == fseq {
                assert(orig.contains(fseq));
            }
        }
    }

    /// Removes a folder from the watch list; removing one that is not
    /// watched changes nothing.
    pub fn remove_watching_folder(&mut self, folder: &str)
        requires
            old(self).wf(),
        ensures
            final(self).wf(),
            !final(self).spec_watches(folder@),
            forall|f: Seq<char>|
                f != folder@ ==> (final(self).spec_watches(f) <==> old(self).spec_watches(f)),
            !old(self).spec_watches(folder@) ==> *final(self) == *old(self),
            final(self).backup_frequency == old(self).backup_frequency,
            final(self).change_detection_buffer == old(self).change_detection_buffer,
            final(self).is_inited == old(self).is_inited,
            final(self).auth_method == old(self).auth_method,
    {
        let ghost orig = self.watching_folders.deep_view();
        let mut i: usize = 0;
        while i < self.watching_folders.len()
            invariant
                *self == *old(self),
                self.watching_folders.deep_view() == orig,
                i <= orig.len(),
                forall|j: int| 0 <= j < i ==> orig[j] != folder@,
                forall|a: int, b: int| 0 <= a < b < orig.len() ==> orig[a] != orig[b],
            decreases self.watching_folders.len() - i,
        {
            if str_eq(self.watching_folders[i].as_str(), folder) {
                assert(orig[i as int] == folder@);
                assert(old(self).spec_watches(folder@));
                self.watching_folders.remove(i);
                assert(self.watching_folders.deep_view() =~= orig.remove(i as int));
                proof {
                    lemma_remove_unique(orig, i as int, folder@);
                }
                return;
            }
            i += 1;
        }
        assert(forall|j: int| 0 <= j < orig.len() ==> orig[j] != folder@);
    }

    /// Empties the watch list.
    pub fn clean_watching_folders(&mut self)
        ensures
            final(self).wf(),
            final(self).watching_folders.deep_view() == Seq::<Seq<char>>::empty(),
            final(self).backup_frequency == old(self).backup_frequency,
            final(self).change_detection_buffer == old(self).change_detection_buffer,
            final(self).is_inited == old(self).is_inited,
            final(self).auth_method == old(self).auth_method,
    {
        self.watching_folders.clear();
        assert(self.watching_folders.deep_view() =~= Seq::<Seq<char>>::empty());
    }

    /// Stores the SSH private key path as the authentication mode.
    pub fn set_ssh_private_key_path(&mut self, path: String)
        ensures
            final(self).auth_method == AuthMethod::SSHKey(path),
            final(self).watching_folders == old(self).watching_folders,
            final(self).backup_frequency == old(self).backup_frequency,
            final(self).change_detection_buffer == old(self).change_detection_buffer,
            final(self).is_inited == old(self).is_inited,
    {
        self.auth_method = AuthMethod::SSHKey(path);
    }

    /// Stores a personal access token as the authentication mode.
    pub fn update_personal_access_token(&mut self, token: String)
        ensures
            final(self).auth_method == AuthMethod::PAT(token),
            final(self).watching_folders == old(self).watching_folders,
            final(self).backup_frequency == old(self).backup_frequency,
            final(self).change_detection_buffer == old(self).change_detection_buffer,
            final(self).is_inited == old(self).is_inited,
    {
        self.auth_method = AuthMethod::PAT(token);
    }
}

/// Removing the only occurrence of `f` from a duplicate-free sequence
/// removes `f` and keeps everything else.
proof fn lemma_remove_unique(s: Seq<Seq<char>>, i: int, f: Seq<char>)
    requires
        0 <= i < s.len(),
        s[i] == f,
        forall|a: int, b: int| 0 <= a < b < s.len() ==> s[a] != s[b],
        forall|j: int| 0 <= j < i ==> s[j] != f,
    ensures
        !s.remove(i).contains(f),
        forall|g: Seq<char>| g != f ==> (s.remove(i).contains(g) <==> s.contains(g)),
        forall|a: int, b: int| 0 <= a < b < s.remove(i).len() ==> s.remove(i)[a] != s.remove(i)[b],
{
    let t = s.remove(i);
    assert forall|k: int| 0 <= k < t.len() implies t[k] != f by {
        if k < i {
            assert(t[k] == s[k]);
        } else {
            assert(t[k] == s[k + 1]);
            assert(s[i] == f);
        }
    }
    assert forall|g: Seq<char>| g != f && s.contains(g) implies t.contains(g) by {
        let k = choose|k: int| 0 <= k < s.len() && s[k] == g;
        if k < i {
            assert(t[k] == g);
        } else {
            assert(k > i);
            assert(t[k - 1] == g);
        }
    }
    assert forall|g: Seq<char>| t.contains(g) implies s.contains(g) by {
        let k = choose|k: int| 0 <= k < t.len() && t[k] == g;
        if k < i {
            assert(s[k] == g);
        } else {
            assert(s[k + 1] == g);
        }
    }
    assert forall|a: int, b: int| 0 <= a < b < t.len() implies t[a] != t[b] by {
        let sa: int = if a < i { a } else { a + 1 };
        let sb: int = if b < i { b } else { b + 1 };
        assert(t[a] == s[sa]);
        assert(t[b] == s[sb]);
    }
}

} // verus!
