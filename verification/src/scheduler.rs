//! The scheduler's decisions: which repository a change signal belongs to,
//! how the set of watched repositories follows the configuration, and
//! which repositories are due for a backup. The surrounding loop — the
//! channel, the sleeps, the filesystem work per attempt — is the caller's.

use vstd::prelude::*;
use crate::repo_instance::RepositoryInstance;
use crate::strutil::{seq_starts_with, str_starts_with, vec_contains_str};

verus! {

/// The first path in `paths` that lies under `repo_path`, if any.
pub open spec fn first_matching_path(repo_path: Seq<char>, paths: Seq<Seq<char>>) -> Option<int>
    decreases paths.len(),
{
    if paths.len() == 0 {
        None
    } else if seq_starts_with(paths[0], repo_path) {
        Some(0int)
    } else {
        match first_matching_path(repo_path, paths.drop_first()) {
            Some(j) => Some(j + 1),
            None => None,
        }
    }
}

/// The first repository one of whose paths changed, if any; the first
/// match wins, as watched repositories are assumed non-overlapping.
pub open spec fn first_matching_repo(
    repos: Seq<RepositoryInstance>,
    paths: Seq<Seq<char>>,
) -> Option<int>
    decreases repos.len(),
{
    if repos.len() == 0 {
        None
    } else if first_matching_path(repos[0].repo_path@, paths) is Some {
        Some(0int)
    } else {
        match first_matching_repo(repos.drop_first(), paths) {
            Some(i) => Some(i + 1),
            None => None,
        }
    }
}

/// The quiescence buffer in seconds for a configured number of minutes,
/// saturating at the largest representable value.
pub fn buffer_seconds(minutes: u64) -> (r: i64)
    ensures
        60 * minutes <= i64::MAX ==> r == 60 * minutes,
        60 * minutes > i64::MAX ==> r == i64::MAX,
{
    if minutes <= (i64::MAX as u64) / 60 {
        (minutes * 60) as i64
    } else {
        i64::MAX
    }
}

/// The scheduler's map of watched repositories, keyed by path.
pub struct BackupExecutor {
    pub repositories: Vec<RepositoryInstance>,
}

impl BackupExecutor {
    /// Whether some watched repository lives at `path`.
    pub open spec fn spec_has_repo(self, path: Seq<char>) -> bool {
        exists|i: int|
            0 <= i < self.repositories@.len() && (#[trigger] self.repositories@[i]).repo_path@
                == path
    }

    /// Paths are pairwise distinct and each instance is well formed.
    pub open spec fn wf(self) -> bool {
        &&& forall|i: int, j: int|
            0 <= i < j < self.repositories@.len() ==> (#[trigger] self.repositories@[i]).repo_path@
                != (#[trigger] self.repositories@[j]).repo_path@
        &&& forall|i: int|
            0 <= i < self.repositories@.len() ==> (#[trigger] self.repositories@[i]).wf()
    }

    pub fn new() -> (r: BackupExecutor)
        ensures
            r.wf(),
            r.repositories@.len() == 0,
    {
        BackupExecutor { repositories: Vec::new() }
    }

    pub fn repository_count(&self) -> (r: usize)
        ensures
            r == self.repositories@.len(),
    {
        self.repositories.len()
    }

    /// The path of the repository at slot `i`.
    pub fn repo_path_at(&self, i: usize) -> (r: &String)
        requires
            i < self.repositories@.len(),
        ensures
            r@ == self.repositories@[i as int].repo_path@,
    {
        &self.repositories[i].repo_path
    }

    /// Whether the repository at slot `i` is due at time `now` with the
    /// quiescence buffer in seconds.
    pub fn is_due_at(&self, i: usize, now: i64, buffer_seconds: i64) -> (r: bool)
        requires
            i < self.repositories@.len(),
        ensures
            r == self.repositories@[i as int].tracker.spec_is_due(now, buffer_seconds),
    {
        self.repositories[i].should_perform_backup(now, buffer_seconds)
    }

    /// Records the result of a backup attempt for the repository at slot
    /// `i`: success resets its debounce state, failure leaves it dirty so
    /// the next cycle retries.
    pub fn record_backup_result_at(&mut self, i: usize, succeeded: bool)
        requires
            old(self).wf(),
            i < old(self).repositories@.len(),
        ensures
            final(self).wf(),
            final(self).repositories@.len() == old(self).repositories@.len(),
            forall|k: int|
                0 <= k < old(self).repositories@.len() && k != i ==> final(self).repositories@[k]
                    == old(self).repositories@[k],
            final(self).repositories@[i as int].repo_path == old(self).repositories@[i as int].repo_path,
            succeeded ==> !final(self).repositories@[i as int].tracker.dirty
                && final(self).repositories@[i as int].tracker.last_change_at is None,
            !succeeded ==> final(self).repositories@[i as int] == old(self).repositories@[i as int],
    {
        self.repositories[i].record_backup_result(succeeded);
        assert forall|a: int, b: int|
            0 <= a < b < self.repositories@.len() implies (
        #[trigger] self.repositories@[a]).repo_path@ != (
        #[trigger] self.repositories@[b]).repo_path@ by {
            assert(old(self).repositories@[a].repo_path@ != old(self).repositories@[b].repo_path@);
        }
    }

    /// Hands a change signal to the repository it belongs to: the first
    /// repository whose path is a prefix of one of the changed paths is
    /// marked (with the first such path); everything else is untouched.
    pub fn update_repo_instance_states(&mut self, paths: &Vec<String>, timestamp: i64)
        requires
            old(self).wf(),
        ensures
            final(self).wf(),
            first_matching_repo(old(self).repositories@, paths.deep_view()) is None
                ==> *final(self) == *old(self),
            first_matching_repo(old(self).repositories@, paths.deep_view()) matches Some(i) ==> {
                let inst = old(self).repositories@[i];
                let j = first_matching_path(inst.repo_path@, paths.deep_view())->0;
                &&& final(self).repositories@.len() == old(self).repositories@.len()
                &&& forall|k: int|
                    0 <= k < old(self).repositories@.len() && k != i ==> final(self).repositories@[k] == old(self).repositories@[k]
                &&& (inst.spec_ignores(paths.deep_view()[j]) ==> final(self).repositories@[i]
                    == inst)
                &&& (!inst.spec_ignores(paths.deep_view()[j]) ==> {
                    &&& final(self).repositories@[i].tracker.dirty
                    &&& final(self).repositories@[i].tracker.last_change_at == Some(timestamp)
                    &&& final(self).repositories@[i].repo_path == inst.repo_path
                    &&& final(self).repositories@[i].git_ignore == inst.git_ignore
                })
            },
    {
        let ghost repos = self.repositories@;
        let ghost pathseq = paths.deep_view();
        assert(repos.skip(0) =~= repos);
        let mut i: usize = 0;
        while i < self.repositories.len()
            invariant
                *self == *old(self),
                old(self).wf(),
                repos == self.repositories@,
                pathseq == paths.deep_view(),
                i <= repos.len(),
                first_matching_repo(repos.skip(i as int), pathseq) == match first_matching_repo(
                    repos,
                    pathseq,
                ) {
                    Some(n) => Some(n - i),
                    None => None::<int>,
                },
            decreases repos.len() - i,
        {
            assert(repos.skip(i as int)[0] == repos[i as int]);
            assert(repos.skip(i as int).drop_first() =~= repos.skip(i + 1));
            match self.find_matching_path(i, paths) {
                Some(j) => {
                    let ghost inst = repos[i as int];
                    assert(first_matching_repo(repos, pathseq) == Some(i as int));
                    let path: &String = &paths[j];
                    assert(path@ == pathseq[j as int]);
                    self.repositories[i].handle_file_change(path.as_str(), timestamp);
                    assert(self.repositories@ =~= repos.update(
                        i as int,
                        self.repositories@[i as int],
                    ));
                    assert forall|a: int, b: int|
                        0 <= a < b < self.repositories@.len() implies (
                    #[trigger] self.repositories@[a]).repo_path@ != (
                    #[trigger] self.repositories@[b]).repo_path@ by {
                        assert(repos[a].repo_path@ != repos[b].repo_path@);
                        assert(self.repositories@[a].repo_path@ == repos[a].repo_path@);
                        assert(self.repositories@[b].repo_path@ == repos[b].repo_path@);
                    }
                    assert forall|k: int|
                        0 <= k < self.repositories@.len() implies (
                    #[trigger] self.repositories@[k]).wf() by {
                        assert(repos[k].wf());
                    }
                    return ;
                },
                None => {},
            }
            i += 1;
        }
        assert(repos.skip(i as int) =~= Seq::<RepositoryInstance>::empty());
    }

    /// The first of `paths` under the repository at slot `i`, if any.
    fn find_matching_path(&self, i: usize, paths: &Vec<String>) -> (r: Option<usize>)
        requires
            i < self.repositories@.len(),
        ensures
            match r {
                Some(j) => first_matching_path(
                    self.repositories@[i as int].repo_path@,
                    paths.deep_view(),
                ) == Some(j as int) && j < paths.deep_view().len(),
                None => first_matching_path(
                    self.repositories@[i as int].repo_path@,
                    paths.deep_view(),
                ) is None,
            },
    {
        let ghost rp = self.repositories@[i as int].repo_path@;
        let ghost pathseq = paths.deep_view();
        assert(pathseq.skip(0) =~= pathseq);
        let mut j: usize = 0;
        while j < paths.len()
            invariant
                i < self.repositories@.len(),
                rp == self.repositories@[i as int].repo_path@,
                pathseq == paths.deep_view(),
                j <= pathseq.len(),
                first_matching_path(rp, pathseq.skip(j as int)) == match first_matching_path(
                    rp,
                    pathseq,
                ) {
                    Some(n) => Some(n - j),
                    None => None::<int>,
                },
            decreases pathseq.len() - j,
        {
            assert(pathseq.skip(j as int)[0] == pathseq[j as int]);
            assert(pathseq.skip(j as int).drop_first() =~= pathseq.skip(j + 1));
            let path: &String = &paths[j];
            assert(path@ == pathseq[j as int]);
            if str_starts_with(path.as_str(), self.repositories[i].repo_path.as_str()) {
                return Some(j);
            }
            j += 1;
        }
        assert(pathseq.skip(j as int) =~= Seq::<Seq<char>>::empty());
        None
    }

    /// The configured folders that are not watched yet: the subsequence
    /// of `folders` whose entries no watched repository lives at.
    pub open spec fn spec_unwatched(self, folders: Seq<Seq<char>>) -> Seq<Seq<char>>
        decreases folders.len(),
    {
        if folders.len() == 0 {
            Seq::empty()
        } else {
            let rest = self.spec_unwatched(folders.drop_first());
            if self.spec_has_repo(folders[0]) {
                rest
            } else {
                seq![folders[0]] + rest
            }
        }
    }

    /// The configured folders that are not watched yet, in order, with
    /// the multiplicity the configuration gives them.
    pub fn missing_folders(&self, config_folders: &Vec<String>) -> (r: Vec<String>)
        ensures
            r.deep_view() == self.spec_unwatched(config_folders.deep_view()),
    {
        let ghost folders = config_folders.deep_view();
        let mut out: Vec<String> = Vec::new();
        assert(out.deep_view() =~= Seq::<Seq<char>>::empty());
        assert(folders.skip(0) =~= folders);
        let mut i: usize = 0;
        while i < config_folders.len()
            invariant
                i <= folders.len(),
                folders == config_folders.deep_view(),
                out.deep_view() + self.spec_unwatched(folders.skip(i as int))
                    == self.spec_unwatched(folders),
            decreases config_folders.len() - i,
        {
            let folder: &String = &config_folders[i];
            assert(folder@ == folders[i as int]);
            assert(folders.skip(i as int)[0] == folders[i as int]);
            assert(folders.skip(i as int).drop_first() =~= folders.skip(i + 1));
            if !self.has_repository(folder.as_str()) {
                out.push(folder.clone());
                assert(out.deep_view() + self.spec_unwatched(folders.skip(i + 1))
                    =~= self.spec_unwatched(folders));
            } else {
                assert(out.deep_view() + self.spec_unwatched(folders.skip(i + 1))
                    =~= self.spec_unwatched(folders));
            }
            i += 1;
        }
        assert(folders.skip(i as int) =~= Seq::<Seq<char>>::empty());
        assert(out.deep_view() =~= self.spec_unwatched(folders));
        out
    }

    /// Whether the folder is already watched.
    pub fn has_repository(&self, path: &str) -> (r: bool)
        ensures
            r == self.spec_has_repo(path@),
    {
        let mut i: usize = 0;
        while i < self.repositories.len()
            invariant
                i <= self.repositories@.len(),
                forall|j: int|
                    0 <= j < i ==> (#[trigger] self.repositories@[j]).repo_path@ != path@,
            decreases self.repositories.len() - i,
        {
            if crate::strutil::str_eq(self.repositories[i].repo_path.as_str(), path) {
                assert(self.repositories@[i as int].repo_path@ == path@);
                return true;
            }
            i += 1;
        }
        false
    }

    /// Starts watching a repository that is not watched yet.
    pub fn insert_instance(&mut self, instance: RepositoryInstance)
        requires
            old(self).wf(),
            instance.wf(),
            !old(self).spec_has_repo(instance.repo_path@),
        ensures
            final(self).wf(),
            final(self).repositories@ == old(self).repositories@.push(instance),
    {
        let ghost orig = self.repositories@;
        let ghost added = instance.repo_path@;
        self.repositories.push(instance);
        assert forall|a: int, b: int|
            0 <= a < b < self.repositories@.len() implies (
        #[trigger] self.repositories@[a]).repo_path@ != (
        #[trigger] self.repositories@[b]).repo_path@ by {
            if b == orig.len() {
                assert(self.repositories@[a] == orig[a]);
                if orig[a].repo_path@ == added {
                    assert(old(self).spec_has_repo(added));
                }
            } else {
                assert(self.repositories@[a] == orig[a]);
                assert(self.repositories@[b] == orig[b]);
            }
        }
        assert forall|k: int|
            0 <= k < self.repositories@.len() implies (#[trigger] self.repositories@[k]).wf() by {
            if k < orig.len() {
                assert(self.repositories@[k] == orig[k]);
            }
        }
    }

    /// The repositories among `repos` whose folder is configured, in
    /// their original order.
    pub open spec fn spec_retained(
        repos: Seq<RepositoryInstance>,
        folders: Seq<Seq<char>>,
    ) -> Seq<RepositoryInstance>
        decreases repos.len(),
    {
        if repos.len() == 0 {
            Seq::empty()
        } else {
            let rest = Self::spec_retained(repos.drop_first(), folders);
            if folders.contains(repos[0].repo_path@) {
                seq![repos[0]] + rest
            } else {
                rest
            }
        }
    }

    /// Stops watching the repositories whose folder is no longer
    /// configured; the others are kept, in order.
    pub fn retain_configured(&mut self, config_folders: &Vec<String>)
        requires
            old(self).wf(),
        ensures
            final(self).wf(),
            final(self).repositories@ == Self::spec_retained(
                old(self).repositories@,
                config_folders.deep_view(),
            ),
    {
        let ghost orig = self.repositories@;
        let ghost folders = config_folders.deep_view();
        let mut kept: Vec<RepositoryInstance> = Vec::new();
        assert(kept@ =~= Seq::<RepositoryInstance>::empty());
        let mut processed: usize = 0;
        let ghost total = orig.len();
        assert(self.repositories.len() == total);
        assert(orig.skip(0) =~= orig);
        assert(kept@ + Self::spec_retained(orig.skip(0), folders) =~= Self::spec_retained(
            orig,
            folders,
        ));
        while self.repositories.len() > 0
            invariant
                orig.len() == total,
                total <= usize::MAX,
                folders == config_folders.deep_view(),
                processed + self.repositories@.len() == total,
                self.repositories@ =~= orig.skip(processed as int),
                kept@ + Self::spec_retained(orig.skip(processed as int), folders)
                    == Self::spec_retained(orig, folders),
                forall|a: int, b: int|
                    0 <= a < b < kept@.len() ==> (#[trigger] kept@[a]).repo_path@ != (
                    #[trigger] kept@[b]).repo_path@,
                forall|k: int| 0 <= k < kept@.len() ==> (#[trigger] kept@[k]).wf(),
                forall|a: int, b: int|
                    0 <= a < b < orig.len() ==> (#[trigger] orig[a]).repo_path@ != (
                    #[trigger] orig[b]).repo_path@,
                forall|k: int| 0 <= k < orig.len() ==> (#[trigger] orig[k]).wf(),
                forall|k: int, m: int|
                    0 <= k < kept@.len() && 0 <= m < self.repositories@.len() ==> (
                    #[trigger] kept@[k]).repo_path@ != (#[trigger] self.repositories@[m]).repo_path@,
            decreases self.repositories@.len(),
        {
            let ghost prev = kept@;
            assert(self.repositories@[0] == orig[processed as int]);
            assert forall|k: int|
                0 <= k < prev.len() implies (#[trigger] prev[k]).repo_path@ != orig[processed as int].repo_path@ by {
                assert((kept@[k]).repo_path@ != (self.repositories@[0]).repo_path@);
            }
            let instance = self.repositories.remove(0);
            assert(instance == orig[processed as int]);
            assert(self.repositories@ =~= orig.skip(processed + 1));
            assert(orig.skip(processed as int).drop_first() =~= orig.skip(processed + 1));
            let keep = vec_contains_str(config_folders, instance.repo_path.as_str());
            assert(keep == folders.contains(orig[processed as int].repo_path@));
            if keep {
                kept.push(instance);
                assert(kept@ =~= prev.push(orig[processed as int]));
                assert(kept@ + Self::spec_retained(orig.skip(processed + 1), folders)
                    =~= Self::spec_retained(orig, folders));
            } else {
                assert(kept@ + Self::spec_retained(orig.skip(processed + 1), folders)
                    =~= Self::spec_retained(orig, folders));
            }
            proof {
                if keep {
                    assert forall|k: int, m: int|
                        0 <= k < kept@.len() && 0 <= m < self.repositories@.len() implies (
                    #[trigger] kept@[k]).repo_path@ != (
                    #[trigger] self.repositories@[m]).repo_path@ by {
                        assert(self.repositories@[m] == orig[processed + 1 + m]);
                        if k < prev.len() {
                            assert(kept@[k] == prev[k]);
                        } else {
                            assert(kept@[k] == orig[processed as int]);
                            assert(orig[processed as int].repo_path@ != orig[processed + 1
                                + m].repo_path@);
                        }
                    }
                    assert forall|a: int, b: int|
                        0 <= a < b < kept@.len() implies (#[trigger] kept@[a]).repo_path@ != (
                    #[trigger] kept@[b]).repo_path@ by {
                        if b == prev.len() {
                            assert(kept@[b] == orig[processed as int]);
                            assert(kept@[a] == prev[a]);
                        } else {
                            assert(kept@[a] == prev[a]);
                            assert(kept@[b] == prev[b]);
                        }
                    }
                    assert forall|k: int| 0 <= k < kept@.len() implies (
                    #[trigger] kept@[k]).wf() by {
                        if k < prev.len() {
                            assert(kept@[k] == prev[k]);
                        } else {
                            assert(kept@[k] == orig[processed as int]);
                        }
                    }
                }
            }
            processed += 1;
        }
        assert(orig.skip(processed as int) =~= Seq::<RepositoryInstance>::empty());
        assert(kept@ =~= Self::spec_retained(orig, folders));
        self.repositories = kept;
    }
}

} // verus!
