//! What holds of every run of the batch processor.

use vstd::prelude::*;

use crate::batch::{
    BatchActionView, BatchError, BatchEventView, BatchOutcome, BatchPhase, BatchState, Turn,
};

verus! {

/// In every state, what the processor says to do next is what the state it
/// moves to waits for: a candidate is asked for only while scanning, an item
/// is applied only while processing, and the run stops only when it is
/// completed or aborted, with the outcome of that state.
pub proof fn lemma_step_asks(state: BatchState, event: BatchEventView)
    ensures
        state.step(event) matches Ok(turn) ==> turn.0.asks(turn.1),
{
}

impl BatchState {
    /// What holds of every state that a run can be in: it is aborted exactly
    /// when an item has failed and errors are not ignored; an item is at hand
    /// while one is processed; and a checkpoint is written only when it is
    /// due.
    pub open spec fn sound(self) -> bool {
        &&& (self.phase == BatchPhase::Aborted) == (self.had_errors && !self.policy.ignore_errors)
        &&& self.phase == BatchPhase::Processing ==> self.current is Some
        &&& self.since_checkpoint <= self.policy.checkpoint_every
        &&& self.phase == BatchPhase::Checkpointing ==> self.since_checkpoint
            == self.policy.checkpoint_every
    }

    /// Whether the run is over.
    pub open spec fn is_over(self) -> bool {
        self.phase == BatchPhase::Completed || self.phase == BatchPhase::Aborted
    }
}

/// A run begins in a sound state.
pub proof fn lemma_start_is_sound(start: BatchState)
    requires
        start.phase == BatchPhase::Scanning,
        !start.had_errors,
        start.since_checkpoint == 0,
    ensures
        start.sound(),
{
}

/// A run begins on schedule.
pub proof fn lemma_start_is_on_schedule(start: BatchState)
    requires
        start.phase == BatchPhase::Scanning,
        start.since_checkpoint == 0,
        start.successes == 0,
        start.policy.checkpoint_every > 0,
    ensures
        start.on_schedule(),
{
    assert(0int % (start.policy.checkpoint_every as int) == 0) by (nonlinear_arith)
        requires
            start.policy.checkpoint_every > 0,
    ;
}

/// Every event that is taken leads from a sound state to a sound state, and
/// a refused event changes nothing.
pub proof fn lemma_step_keeps_sound(state: BatchState, event: BatchEventView)
    requires
        state.sound(),
    ensures
        state.step(event) matches Ok(turn) ==> turn.0.sound(),
{
}

/// A run that is over takes no further event: after an abort no item is
/// fetched or processed, and no checkpoint is written.
pub proof fn lemma_over_is_final(state: BatchState, event: BatchEventView)
    requires
        state.is_over(),
    ensures
        state.step(event) == Err::<Turn, BatchError>(BatchError::UnexpectedEvent),
{
}

/// A run is reported as failed exactly when it was aborted: where errors are
/// ignored it is reported as succeeded whatever failed, and where they are
/// not, it succeeds only if nothing failed.
pub proof fn lemma_outcome(state: BatchState)
    requires
        state.sound(),
    ensures
        state.outcome().succeeded == (state.phase != BatchPhase::Aborted),
        state.outcome().had_errors == state.had_errors,
        state.had_errors && !state.policy.ignore_errors ==> !state.outcome().succeeded,
        state.policy.ignore_errors ==> state.outcome().succeeded,
{
}

/// Whether the event tells of an item that failed.
pub open spec fn is_failure(state: BatchState, event: BatchEventView) -> bool {
    ||| state.phase == BatchPhase::Processing && event is Failed
    ||| state.phase == BatchPhase::Scanning && !state.turning && event is Unusable
}

/// Where errors are not ignored, the first item that fails ends the run: it
/// is aborted and reported as failed.
pub proof fn lemma_fail_fast(state: BatchState, event: BatchEventView)
    requires
        !state.policy.ignore_errors,
        is_failure(state, event),
    ensures
        state.step(event) matches Ok(turn) && turn.0.phase == BatchPhase::Aborted && turn.1 == (
        BatchActionView::Stop(BatchOutcome { succeeded: false, had_errors: true })),
{
}

/// Where errors are ignored, an item that fails is remembered and the run
/// goes on with the source.
pub proof fn lemma_ignored_failure_goes_on(state: BatchState, event: BatchEventView)
    requires
        state.policy.ignore_errors,
        is_failure(state, event),
    ensures
        state.step(event) matches Ok(turn) && turn.0.phase == BatchPhase::Scanning
            && turn.0.had_errors && (turn.1 is Fetch || turn.1 is TurnPage)
            && turn.0.outcome().succeeded,
{
}

/// Only a candidate that is offered while the run is past its checkpoint,
/// and that the filter admits, is processed.
pub proof fn lemma_apply_only_admitted(state: BatchState, event: BatchEventView)
    ensures
        state.step(event) matches Ok(turn) ==> (turn.1 matches BatchActionView::Apply(item) ==> {
            &&& event == BatchEventView::Candidate(item)
            &&& !state.matcher.skipping()
            &&& state.admits(item)
        }),
{
}

impl BatchState {
    /// The run saves a checkpoint after every `checkpoint_every` successes:
    /// outside of a write, the successes since the last checkpoint are the
    /// successes of the run modulo `checkpoint_every`; during a write, the
    /// successes of the run are a positive multiple of it.
    pub open spec fn on_schedule(self) -> bool {
        let every = self.policy.checkpoint_every as int;
        let successes = self.successes as int;
        if self.phase == BatchPhase::Checkpointing {
            self.since_checkpoint == every && successes > 0 && successes % every == 0
        } else {
            self.since_checkpoint == successes % every
        }
    }
}

/// As long as every checkpoint is written, a checkpoint is saved exactly
/// after each success whose number in the run is a multiple of
/// `checkpoint_every`.
pub proof fn lemma_checkpoint_cadence(state: BatchState, event: BatchEventView)
    requires
        state.policy.checkpoint_every > 0,
        state.successes < u64::MAX,
        state.on_schedule(),
        !(event is CheckpointNotWritten),
    ensures
        state.step(event) matches Ok(turn) ==> {
            &&& turn.0.on_schedule()
            &&& turn.1 is SaveCheckpoint <==> event is Applied && (turn.0.successes as int) % (
            state.policy.checkpoint_every as int) == 0
            &&& turn.0.successes == state.successes + if event is Applied {
                1int
            } else {
                0int
            }
        },
{
    let every = state.policy.checkpoint_every as int;
    let n = state.successes as int;
    assert((n + 1) % every == if n % every + 1 < every {
        n % every + 1
    } else {
        0
    }) by (nonlinear_arith)
        requires
            every > 0,
            n >= 0,
    ;
    assert(0int % every == 0) by (nonlinear_arith)
        requires
            every > 0,
    ;
    assert(0 <= n % every < every) by (nonlinear_arith)
        requires
            every > 0,
            n >= 0,
    ;
}

} // verus!
