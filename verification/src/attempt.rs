//! The lifecycle of one backup attempt. The protocol itself runs in
//! `engine`; this module pins the order of the surrounding duties: the
//! stale scratch directory is removed before the copy is made, and the
//! scratch directory is removed again before the attempt may report its
//! outcome — success or failure. The caller performs the removals (they
//! are filesystem work) and acknowledges them through the typestate here.

use vstd::prelude::*;
use crate::branch::spec_is_backup_branch;
use crate::engine::{temp_clone_path, BackupOutcome, TempCloneRepo};
use crate::errors::BackupError;

verus! {

/// Where an attempt stands.
#[derive(Debug, Clone, Copy, PartialEq, Eq, Structural)]
pub enum AttemptPhase {
    /// Nothing happened yet; a stale scratch copy may still be on disk.
    Fresh,
    /// The scratch location is clear; the protocol may run.
    Ready,
    /// The protocol ran; the scratch copy must be removed.
    NeedsCleanup,
    /// The scratch copy is gone; the outcome may be reported.
    Finished,
}

/// What the caller reports back to the attempt.
#[derive(Debug, Clone, Copy, PartialEq, Eq, Structural)]
pub enum AttemptEvent {
    /// Any stale scratch directory was removed (or none existed).
    StaleScratchRemoved,
    /// The protocol ran to an outcome.
    ProtocolFinished,
    /// The scratch directory was removed after the run.
    ScratchRemoved,
}

/// The attempt's phase transition: a strict line from `Fresh` to
/// `Finished`; an event out of order changes nothing.
pub open spec fn attempt_step(p: AttemptPhase, ev: AttemptEvent) -> AttemptPhase {
    match (p, ev) {
        (AttemptPhase::Fresh, AttemptEvent::StaleScratchRemoved) => AttemptPhase::Ready,
        (AttemptPhase::Ready, AttemptEvent::ProtocolFinished) => AttemptPhase::NeedsCleanup,
        (AttemptPhase::NeedsCleanup, AttemptEvent::ScratchRemoved) => AttemptPhase::Finished,
        (_, _) => p,
    }
}

/// The phase after a whole sequence of events.
pub open spec fn attempt_run(p: AttemptPhase, evs: Seq<AttemptEvent>) -> AttemptPhase
    decreases evs.len(),
{
    if evs.len() == 0 {
        p
    } else {
        attempt_run(attempt_step(p, evs[0]), evs.drop_first())
    }
}

/// No attempt finishes without the scratch directory having been removed:
/// every event sequence that takes an unfinished attempt to `Finished`
/// contains a `ScratchRemoved` event.
pub proof fn lemma_no_finish_without_cleanup(p: AttemptPhase, evs: Seq<AttemptEvent>)
    requires
        p != AttemptPhase::Finished,
        attempt_run(p, evs) == AttemptPhase::Finished,
    ensures
        exists|i: int| 0 <= i < evs.len() && evs[i] == AttemptEvent::ScratchRemoved,
    decreases evs.len(),
{
    assert(evs.len() > 0);
    let next = attempt_step(p, evs[0]);
    if next == AttemptPhase::Finished {
        assert(evs[0] == AttemptEvent::ScratchRemoved);
    } else {
        lemma_no_finish_without_cleanup(next, evs.drop_first());
        let j = choose|j: int|
            0 <= j < evs.drop_first().len() && evs.drop_first()[j]
                == AttemptEvent::ScratchRemoved;
        assert(evs[j + 1] == AttemptEvent::ScratchRemoved);
    }
}

/// One backup attempt for the repository at `repo_path`, from clearing
/// the stale scratch copy to reporting the outcome.
pub struct BackupAttempt {
    repo_path: String,
    scratch: String,
    phase: AttemptPhase,
    outcome: Option<Result<BackupOutcome, BackupError>>,
}

impl BackupAttempt {
    pub closed spec fn wf(self) -> bool {
        &&& self.scratch@ == self.repo_path@ + "_temp_clone"@
        &&& (self.phase == AttemptPhase::NeedsCleanup || self.phase == AttemptPhase::Finished
            ==> self.outcome is Some)
    }

    pub closed spec fn spec_phase(self) -> AttemptPhase {
        self.phase
    }

    pub closed spec fn spec_repo_path(self) -> Seq<char> {
        self.repo_path@
    }

    pub closed spec fn spec_outcome(self) -> Option<Result<BackupOutcome, BackupError>> {
        self.outcome
    }

    pub fn new(repo_path: String) -> (r: BackupAttempt)
        ensures
            r.wf(),
            r.spec_phase() == AttemptPhase::Fresh,
            r.spec_repo_path() == repo_path@,
    {
        let scratch = temp_clone_path(repo_path.as_str());
        BackupAttempt { repo_path, scratch, phase: AttemptPhase::Fresh, outcome: None }
    }

    /// The scratch location this attempt works under.
    pub fn scratch_path(&self) -> (r: &String)
        requires
            self.wf(),
        ensures
            r@ == self.spec_repo_path() + "_temp_clone"@,
    {
        &self.scratch
    }

    pub fn phase(&self) -> (r: AttemptPhase)
        ensures
            r == self.spec_phase(),
    {
        self.phase
    }

    /// The caller removed any stale scratch copy (or found none).
    pub fn note_stale_scratch_removed(&mut self)
        requires
            old(self).wf(),
            old(self).spec_phase() == AttemptPhase::Fresh,
        ensures
            final(self).wf(),
            final(self).spec_phase() == attempt_step(
                old(self).spec_phase(),
                AttemptEvent::StaleScratchRemoved,
            ),
            final(self).spec_repo_path() == old(self).spec_repo_path(),
    {
        self.phase = AttemptPhase::Ready;
    }

    /// Runs the protocol on a fresh copy: copy, open, resolve the
    /// authentication mode, snapshot and push — all against the copy.
    /// The open handle on the copy is dropped before this returns.
    pub fn run(&mut self)
        requires
            old(self).wf(),
            old(self).spec_phase() == AttemptPhase::Ready,
        ensures
            final(self).wf(),
            final(self).spec_phase() == attempt_step(
                old(self).spec_phase(),
                AttemptEvent::ProtocolFinished,
            ),
            final(self).spec_repo_path() == old(self).spec_repo_path(),
            final(self).spec_outcome() matches Some(Ok(BackupOutcome::Pushed(name)))
                ==> spec_is_backup_branch(name@),
            final(self).spec_outcome() matches Some(Err(e)) ==> e is CloneCopyFailed
                || e is RepositoryOpenFailed || e == BackupError::AuthResolutionFailed
                || e == BackupError::ConflictDetected || e is GitOperationFailed
                || e is AuthFailed || e is PushFailed,
    {
        let result: Result<BackupOutcome, BackupError> = match TempCloneRepo::new(
            self.repo_path.as_str(),
        ) {
            Ok(mut clone_repo) => {
                let r = clone_repo.perform_backup();
                let _scratch = clone_repo.into_scratch_path();
                r
            },
            Err(e) => Err(e),
        };
        self.outcome = Some(result);
        self.phase = AttemptPhase::NeedsCleanup;
    }

    /// The caller removed the scratch copy after the run.
    pub fn note_scratch_removed(&mut self)
        requires
            old(self).wf(),
            old(self).spec_phase() == AttemptPhase::NeedsCleanup,
        ensures
            final(self).wf(),
            final(self).spec_phase() == attempt_step(
                old(self).spec_phase(),
                AttemptEvent::ScratchRemoved,
            ),
            final(self).spec_repo_path() == old(self).spec_repo_path(),
            final(self).spec_outcome() == old(self).spec_outcome(),
    {
        self.phase = AttemptPhase::Finished;
    }

    /// Reports how the attempt ended. Only a finished attempt — one whose
    /// scratch copy is gone — can report.
    pub fn finish(self) -> (r: Result<BackupOutcome, BackupError>)
        requires
            self.wf(),
            self.spec_phase() == AttemptPhase::Finished,
        ensures
            self.spec_outcome() == Some(r),
    {
        let BackupAttempt { repo_path: _, scratch: _, phase: _, outcome } = self;
        match outcome {
            Some(r) => r,
            None => Err(BackupError::NotAGitRepository),
        }
    }
}

} // verus!
