//! Batch deletion: a candidate set, a confirmation gate, then one delete per
//! candidate in order, each outcome recorded as it comes and a pause after
//! each, whether it succeeded or not.
//!
//! The batch decides; its caller performs. The caller asks for the next
//! target, performs the delete, hands the outcome to `record`, and sleeps for
//! the pause that `record` returns.

use vstd::prelude::*;
use crate::models::Repository;
use crate::operations::DeleteError;
use crate::selection::{
    lemma_selected_below,
    select_positions,
    selected_positions,
    typed_numbers,
    as_nats,
    is_well_formed,
    SelectionError,
};
use crate::text::{trimmed, trimmed_equals};

verus! {

/// Which of the two batch flows this is.
#[derive(Clone, Copy, Debug, PartialEq, Eq, Structural)]
pub enum BatchKind {
    /// Every repository of the listing.
    All,
    /// The repositories that a selection names.
    Selected,
}

/// The phrase that the operator must type to let a batch of `kind` proceed.
pub open spec fn confirmation_phrase(kind: BatchKind) -> Seq<char> {
    match kind {
        BatchKind::All => "Delete all"@,
        BatchKind::Selected => "DELETE SELECTED"@,
    }
}

/// Whether `input`, trimmed, is exactly the phrase for `kind`; letter case
/// counts.
pub fn confirms(kind: BatchKind, input: &str) -> (r: bool)
    ensures
        r == (trimmed(input@) == confirmation_phrase(kind)),
{
    match kind {
        BatchKind::All => trimmed_equals(input, "Delete all"),
        BatchKind::Selected => trimmed_equals(input, "DELETE SELECTED"),
    }
}

/// How long to pause after each delete, and whether the pause follows a
/// failed delete too.
#[derive(Clone, Copy, Debug, PartialEq, Eq, Structural)]
pub struct PacingPolicy {
    pub interval_ms: u64,
    pub after_failure: bool,
}

impl PacingPolicy {
    /// Half a second after every delete, failed or not.
    pub fn standard() -> (r: PacingPolicy)
        ensures
            r.interval_ms == 500,
            r.after_failure,
    {
        PacingPolicy { interval_ms: 500, after_failure: true }
    }

    /// No pause at all.
    pub fn immediate() -> (r: PacingPolicy)
        ensures
            r.interval_ms == 0,
    {
        PacingPolicy { interval_ms: 0, after_failure: false }
    }
}

/// Where a batch stands.
#[derive(Clone, Copy, Debug, PartialEq, Eq, Structural)]
pub enum Phase {
    /// Waiting for the operator's phrase.
    AwaitConfirmation,
    /// The phrase did not match: nothing will be deleted.
    Cancelled,
    /// Deleting, one target after another.
    Executing,
    /// Every target has had its delete attempted.
    Completed,
}

/// One repository to delete.
#[derive(Clone, Debug)]
pub struct DeletionTarget {
    pub owner: String,
    pub name: String,
}

/// The owner and name of a listed repository.
pub open spec fn target_of(r: Repository) -> (Seq<char>, Seq<char>) {
    (r.owner.login@, r.name@)
}

/// How many of `results` are successes.
pub open spec fn count_deleted(results: Seq<bool>) -> nat
    decreases results.len(),
{
    if results.len() == 0 {
        0
    } else {
        count_deleted(results.drop_last()) + if results.last() {
            1nat
        } else {
            0nat
        }
    }
}

/// A batch of deletions, from confirmation to completion.
pub struct Batch {
    kind: BatchKind,
    pacing: PacingPolicy,
    targets: Vec<DeletionTarget>,
    phase: Phase,
    outcomes: Vec<Result<(), DeleteError>>,
    succeeded: usize,
    failed: usize,
}

impl Batch {
    pub closed spec fn kind_spec(&self) -> BatchKind {
        self.kind
    }

    pub closed spec fn pacing_spec(&self) -> PacingPolicy {
        self.pacing
    }

    pub closed spec fn phase_spec(&self) -> Phase {
        self.phase
    }

    /// The owner and name of each target, in deletion order.
    pub closed spec fn targets_spec(&self) -> Seq<(Seq<char>, Seq<char>)> {
        self.targets@.map_values(|t: DeletionTarget| (t.owner@, t.name@))
    }

    /// For each attempted delete so far, in order: whether it succeeded.
    pub closed spec fn results_spec(&self) -> Seq<bool> {
        self.outcomes@.map_values(|o: Result<(), DeleteError>| o is Ok)
    }

    /// The batch's invariant.
    pub closed spec fn wf(&self) -> bool {
        &&& self.outcomes@.len() <= self.targets@.len()
        &&& (self.phase == Phase::AwaitConfirmation || self.phase == Phase::Cancelled)
            ==> self.outcomes@.len() == 0
        &&& self.phase == Phase::Executing ==> self.outcomes@.len() < self.targets@.len()
        &&& self.phase == Phase::Completed ==> self.outcomes@.len() == self.targets@.len()
        &&& self.succeeded == count_deleted(self.results_spec())
        &&& self.succeeded + self.failed == self.outcomes@.len()
    }

    fn awaiting(kind: BatchKind, pacing: PacingPolicy, targets: Vec<DeletionTarget>) -> (b: Batch)
        ensures
            b.wf(),
            b.kind_spec() == kind,
            b.pacing_spec() == pacing,
            b.phase_spec() == Phase::AwaitConfirmation,
            b.targets_spec() == targets@.map_values(|t: DeletionTarget| (t.owner@, t.name@)),
            b.results_spec().len() == 0,
    {
        let b = Batch {
            kind,
            pacing,
            targets,
            phase: Phase::AwaitConfirmation,
            outcomes: Vec::new(),
            succeeded: 0,
            failed: 0,
        };
        assert(b.results_spec() =~= Seq::<bool>::empty());
        b
    }

    /// A batch over every repository of the listing, in listing order,
    /// waiting for its phrase.
    pub fn delete_all(repos: &Vec<Repository>, pacing: PacingPolicy) -> (b: Batch)
        ensures
            b.wf(),
            b.kind_spec() == BatchKind::All,
            b.pacing_spec() == pacing,
            b.phase_spec() == Phase::AwaitConfirmation,
            b.targets_spec() == repos@.map_values(|r: Repository| target_of(r)),
            b.results_spec().len() == 0,
    {
        let mut targets: Vec<DeletionTarget> = Vec::new();
        for i in 0..repos.len()
            invariant
                targets@.map_values(|t: DeletionTarget| (t.owner@, t.name@)) == repos@.take(
                    i as int,
                ).map_values(|r: Repository| target_of(r)),
        {
            let r = &repos[i];
            targets.push(DeletionTarget { owner: r.owner.login.clone(), name: r.name.clone() });
            assert(repos@.take(i + 1).map_values(|r: Repository| target_of(r)) =~= repos@.take(
                i as int,
            ).map_values(|r: Repository| target_of(r)).push(target_of(repos@[i as int])));
            assert(targets@.map_values(|t: DeletionTarget| (t.owner@, t.name@)) =~= targets@.drop_last().map_values(
                |t: DeletionTarget| (t.owner@, t.name@),
            ).push((targets@.last().owner@, targets@.last().name@)));
        }
        assert(repos@.take(repos@.len() as int) =~= repos@);
        Batch::awaiting(BatchKind::All, pacing, targets)
    }

    /// A batch over the repositories that the selection `input` names, in
    /// listing order, waiting for its phrase. Fails, before any phrase is
    /// asked for, when the selection is malformed or names nothing listed.
    pub fn delete_selected(repos: &Vec<Repository>, input: &str, pacing: PacingPolicy) -> (r: Result<
        Batch,
        SelectionError,
    >)
        ensures
            !is_well_formed(input@) <==> r matches Err(SelectionError::InvalidFormat),
            is_well_formed(input@) && selected_positions(
                typed_numbers(input@),
                repos@.len() as nat,
            ).len() == 0 <==> r matches Err(SelectionError::NothingSelected),
            r matches Ok(b) ==> {
                &&& b.wf()
                &&& b.kind_spec() == BatchKind::Selected
                &&& b.pacing_spec() == pacing
                &&& b.phase_spec() == Phase::AwaitConfirmation
                &&& b.targets_spec() == selected_positions(
                    typed_numbers(input@),
                    repos@.len() as nat,
                ).map_values(|p: nat| target_of(repos@[p as int]))
                &&& b.results_spec().len() == 0
            },
    {
        let positions = match select_positions(input, repos.len()) {
            Ok(p) => p,
            Err(e) => {
                return Err(e);
            },
        };
        let ghost chosen = selected_positions(typed_numbers(input@), repos@.len() as nat);
        proof {
            lemma_selected_below(typed_numbers(input@), repos@.len() as nat);
        }
        assert forall|k: int| 0 <= k < positions@.len() implies positions@[k] < repos@.len() by {
            assert(as_nats(positions@)[k] == chosen[k]);
        }
        let mut targets: Vec<DeletionTarget> = Vec::new();
        for k in 0..positions.len()
            invariant
                as_nats(positions@) == chosen,
                forall|j: int| 0 <= j < positions@.len() ==> positions@[j] < repos@.len(),
                targets@.map_values(|t: DeletionTarget| (t.owner@, t.name@)) == chosen.take(
                    k as int,
                ).map_values(|p: nat| target_of(repos@[p as int])),
        {
            let r = &repos[positions[k]];
            targets.push(DeletionTarget { owner: r.owner.login.clone(), name: r.name.clone() });
            assert(as_nats(positions@)[k as int] == positions@[k as int] as nat);
            assert(chosen.take(k + 1).map_values(|p: nat| target_of(repos@[p as int])) =~= chosen.take(
                k as int,
            ).map_values(|p: nat| target_of(repos@[p as int])).push(
                target_of(repos@[positions@[k as int] as int]),
            ));
            assert(targets@.map_values(|t: DeletionTarget| (t.owner@, t.name@)) =~= targets@.drop_last().map_values(
                |t: DeletionTarget| (t.owner@, t.name@),
            ).push((targets@.last().owner@, targets@.last().name@)));
        }
        assert(chosen.take(chosen.len() as int) =~= chosen);
        Ok(Batch::awaiting(BatchKind::Selected, pacing, targets))
    }

    /// A batch over `targets`, in their order, for a front end that has
    /// already had the operator confirm through its own dialog: executing, or
    /// completed at once when there is nothing to delete.
    pub fn confirmed(targets: Vec<DeletionTarget>, pacing: PacingPolicy) -> (b: Batch)
        ensures
            b.wf(),
            b.kind_spec() == BatchKind::Selected,
            b.pacing_spec() == pacing,
            b.phase_spec() == if targets@.len() == 0 {
                Phase::Completed
            } else {
                Phase::Executing
            },
            b.targets_spec() == targets@.map_values(|t: DeletionTarget| (t.owner@, t.name@)),
            b.results_spec().len() == 0,
    {
        let mut b = Batch::awaiting(BatchKind::Selected, pacing, targets);
        assert(b.targets@.len() == b.targets_spec().len());
        if b.targets.len() == 0 {
            b.phase = Phase::Completed;
        } else {
            b.phase = Phase::Executing;
        }
        b
    }

    /// Applies the operator's answer to a batch waiting for it: the batch
    /// proceeds exactly when the trimmed answer is its phrase, and is cancelled
    /// otherwise. A batch with nothing to delete completes at once. A batch
    /// not waiting for an answer is left as it is. Returns whether the batch
    /// proceeds.
    pub fn confirm(&mut self, input: &str) -> (r: bool)
        requires
            old(self).wf(),
        ensures
            final(self).wf(),
            final(self).kind_spec() == old(self).kind_spec(),
            final(self).pacing_spec() == old(self).pacing_spec(),
            final(self).targets_spec() == old(self).targets_spec(),
            final(self).results_spec() == old(self).results_spec(),
            old(self).phase_spec() == Phase::AwaitConfirmation ==> {
                &&& r == (trimmed(input@) == confirmation_phrase(old(self).kind_spec()))
                &&& final(self).phase_spec() == if !r {
                    Phase::Cancelled
                } else if old(self).targets_spec().len() == 0 {
                    Phase::Completed
                } else {
                    Phase::Executing
                }
            },
            old(self).phase_spec() != Phase::AwaitConfirmation ==> !r && final(self).phase_spec()
                == old(self).phase_spec(),
    {
        if self.phase != Phase::AwaitConfirmation {
            return false;
        }
        if confirms(self.kind, input) {
            if self.targets.len() == 0 {
                self.phase = Phase::Completed;
            } else {
                self.phase = Phase::Executing;
            }
            true
        } else {
            self.phase = Phase::Cancelled;
            false
        }
    }

    /// The target whose delete comes next: the first not yet attempted, while
    /// the batch is executing; none in any other phase.
    pub fn next_target(&self) -> (r: Option<&DeletionTarget>)
        requires
            self.wf(),
        ensures
            r is Some <==> self.phase_spec() == Phase::Executing,
            r matches Some(t) ==> self.results_spec().len() < self.targets_spec().len() && (
            t.owner@, t.name@) == self.targets_spec()[self.results_spec().len() as int],
    {
        if self.phase == Phase::Executing {
            Some(&self.targets[self.outcomes.len()])
        } else {
            None
        }
    }

    /// Records the outcome of the pending delete, success or failure alike,
    /// and moves on: to the next target, or to completion after the last.
    /// Returns the pause, in milliseconds, to take before the next delete.
    pub fn record(&mut self, outcome: Result<(), DeleteError>) -> (pause_ms: u64)
        requires
            old(self).wf(),
            old(self).phase_spec() == Phase::Executing,
        ensures
            final(self).wf(),
            final(self).kind_spec() == old(self).kind_spec(),
            final(self).pacing_spec() == old(self).pacing_spec(),
            final(self).targets_spec() == old(self).targets_spec(),
            final(self).results_spec() == old(self).results_spec().push(outcome is Ok),
            final(self).phase_spec() == if final(self).results_spec().len()
                == old(self).targets_spec().len() {
                Phase::Completed
            } else {
                Phase::Executing
            },
            pause_ms == if outcome is Ok || old(self).pacing_spec().after_failure {
                old(self).pacing_spec().interval_ms
            } else {
                0
            },
    {
        let ok = outcome.is_ok();
        let total = self.targets.len();
        assert(self.succeeded + self.failed < total);
        if ok {
            self.succeeded = self.succeeded + 1;
        } else {
            self.failed = self.failed + 1;
        }
        self.outcomes.push(outcome);
        assert(self.results_spec().drop_last() =~= old(self).results_spec());
        if self.outcomes.len() == self.targets.len() {
            self.phase = Phase::Completed;
        }
        if ok || self.pacing.after_failure {
            self.pacing.interval_ms
        } else {
            0
        }
    }

    /// Where the batch stands.
    pub fn phase(&self) -> (r: Phase)
        ensures
            r == self.phase_spec(),
    {
        self.phase
    }

    /// Which flow this batch belongs to.
    pub fn kind(&self) -> (r: BatchKind)
        ensures
            r == self.kind_spec(),
    {
        self.kind
    }

    /// The targets, in deletion order.
    pub fn targets(&self) -> (r: &Vec<DeletionTarget>)
        ensures
            r@.map_values(|t: DeletionTarget| (t.owner@, t.name@)) == self.targets_spec(),
    {
        &self.targets
    }

    /// The outcome of each delete attempted so far, in order.
    pub fn outcomes(&self) -> (r: &Vec<Result<(), DeleteError>>)
        ensures
            r@.map_values(|o: Result<(), DeleteError>| o is Ok) == self.results_spec(),
    {
        &self.outcomes
    }

    /// How many deletes succeeded.
    pub fn succeeded(&self) -> (r: usize)
        requires
            self.wf(),
        ensures
            r == count_deleted(self.results_spec()),
    {
        self.succeeded
    }

    /// How many deletes failed.
    pub fn failed(&self) -> (r: usize)
        requires
            self.wf(),
        ensures
            r == self.results_spec().len() - count_deleted(self.results_spec()),
    {
        self.failed
    }
}

} // verus!
