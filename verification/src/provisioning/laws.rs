//! What holds of every provisioning run.

use vstd::prelude::*;

use crate::batch::{BatchActionView, BatchOutcome, BatchPhase, BatchState, Turn};
use crate::provisioning::{
    exhausted, resolved, scan, settled, ProvisioningEvent, ProvisioningState,
};
use crate::resume::ResumeMatcherView;
use crate::syspass::AccountView;
use crate::xml::XmlConfigView;

verus! {

/// A turn that asks nothing of the source: it is the driver's to take.
pub open spec fn is_for_driver(turn: Turn) -> bool {
    &&& turn.0.asks(turn.1)
    &&& !(turn.1 is Fetch)
    &&& !(turn.1 is TurnPage)
}

/// Going through the manifest ends with something for the driver to do, and
/// leads from a sound state to a sound state.
pub proof fn lemma_scan_settles(config: XmlConfigView, state: BatchState)
    requires
        state.phase == BatchPhase::Scanning,
        !state.turning,
    ensures
        is_for_driver(scan(config, state)),
        state.sound() ==> scan(config, state).0.sound(),
    decreases config.accounts.len() - state.cursor,
{
    if state.cursor < config.accounts.len() {
        let next = match resolved(config, config.accounts[state.cursor as int]) {
            Ok(candidate) => state.offer(candidate),
            Err(_) => state.fail(),
        };
        if next.1 is Fetch {
            lemma_scan_settles(config, next.0);
        }
    }
}

/// Every turn of a provisioning run is the driver's to take: an account to
/// set the permissions of, a checkpoint to save, or the end of the run.
pub proof fn lemma_settled_is_for_driver(config: XmlConfigView, turn: Turn)
    requires
        turn.0.asks(turn.1),
    ensures
        is_for_driver(settled(config, turn)),
        turn.0.sound() ==> settled(config, turn).0.sound(),
{
    if turn.1 is Fetch {
        lemma_scan_settles(config, turn.0);
    }
}

/// Every account of the manifest refers to a client and a category of the
/// manifest.
pub open spec fn all_resolve(config: XmlConfigView) -> bool {
    forall|k: int|
        0 <= k < config.accounts.len() ==> (#[trigger] resolved(config, config.accounts[k])) is Ok
}

/// The account at `k` of the manifest, as it is observed.
pub open spec fn candidate(config: XmlConfigView, k: int) -> AccountView {
    resolved(config, config.accounts[k])->Ok_0
}

/// What a run does first when it is past its checkpoint at `next`: it
/// processes the account there, or ends where there is none.
pub open spec fn goes_on_at(config: XmlConfigView, next: int, turn: Turn) -> bool {
    if next < config.accounts.len() {
        turn.1 == BatchActionView::Apply(candidate(config, next)) && turn.0.cursor == next
    } else {
        turn.1 == BatchActionView::Stop(BatchOutcome { succeeded: true, had_errors: false })
    }
}

proof fn lemma_scan_to_checkpoint(config: XmlConfigView, state: BatchState, i: int)
    requires
        all_resolve(config),
        config.accounts.len() <= usize::MAX,
        state.phase == BatchPhase::Scanning,
        !state.turning,
        !state.had_errors,
        state.filter is None,
        state.cursor <= i < config.accounts.len(),
        state.matcher == ResumeMatcherView::start(Some(candidate(config, i))),
        forall|j: int| state.cursor <= j < i ==> candidate(config, j) != candidate(config, i),
    ensures
        goes_on_at(config, i + 1, scan(config, state)),
    decreases i - state.cursor,
{
    let c = state.cursor as int;
    assert(resolved(config, config.accounts[c]) is Ok);
    let next = state.offer(candidate(config, c));
    assert(next.1 is Fetch);
    if c < i {
        assert(candidate(config, c) != candidate(config, i));
        lemma_scan_to_checkpoint(config, next.0, i);
    } else {
        let after = next.0;
        if i + 1 < config.accounts.len() {
            assert(resolved(config, config.accounts[i + 1]) is Ok);
            assert(scan(config, after) == after.offer(candidate(config, i + 1)));
        } else {
            assert(scan(config, after) == exhausted(after));
        }
    }
}

/// A run whose checkpoint is the account at index `i` of the manifest, and
/// no account before it, passes over the accounts up to and with `i`: the
/// first account that it processes is the one at `i + 1`, and where there is
/// none, the run ends at once and has succeeded.
pub proof fn lemma_resumes_after_checkpoint(
    config: XmlConfigView,
    ignore_errors: bool,
    set_accounts: u16,
    i: int,
)
    requires
        all_resolve(config),
        config.accounts.len() <= usize::MAX,
        0 <= i < config.accounts.len(),
        forall|j: int| 0 <= j < i ==> candidate(config, j) != candidate(config, i),
    ensures
        goes_on_at(
            config,
            i + 1,
            ProvisioningState::start(
                config,
                ignore_errors,
                set_accounts,
                Some(candidate(config, i)),
            ),
        ),
{
    let start = BatchState::start(
        crate::provisioning::provisioning_policy(ignore_errors, set_accounts),
        Some(candidate(config, i)),
        None,
        Seq::empty(),
    );
    lemma_scan_to_checkpoint(config, start, i);
}

/// A run without a checkpoint begins with the first account of the manifest.
pub proof fn lemma_starts_at_first_account(
    config: XmlConfigView,
    ignore_errors: bool,
    set_accounts: u16,
)
    requires
        all_resolve(config),
    ensures
        goes_on_at(
            config,
            0,
            ProvisioningState::start(config, ignore_errors, set_accounts, None),
        ),
{
    if config.accounts.len() > 0 {
        assert(resolved(config, config.accounts[0]) is Ok);
    }
}

/// An account that refers to an unknown client or category fails like an
/// item that could not be processed: where errors are not ignored, a run
/// that comes to it is aborted.
pub proof fn lemma_unknown_reference_aborts(config: XmlConfigView, state: BatchState)
    requires
        state.phase == BatchPhase::Scanning,
        !state.turning,
        !state.policy.ignore_errors,
        state.cursor < config.accounts.len(),
        resolved(config, config.accounts[state.cursor as int]) is Err,
    ensures
        scan(config, state).0.phase == BatchPhase::Aborted,
        scan(config, state).1 == BatchActionView::Stop(
            BatchOutcome { succeeded: false, had_errors: true },
        ),
{
}

/// Where errors are not ignored, the first account whose permissions could
/// not be set ends the run: it is aborted and reported as failed, and no
/// further account is processed.
pub proof fn lemma_failure_ends_the_run(state: ProvisioningState, later: ProvisioningEvent)
    requires
        !state.batch.policy.ignore_errors,
        state.batch.phase == BatchPhase::Processing,
    ensures
        state.step(ProvisioningEvent::Failed) matches Ok(turn) && turn.0.phase
            == BatchPhase::Aborted && turn.1 == BatchActionView::Stop(
            BatchOutcome { succeeded: false, had_errors: true },
        ) && (ProvisioningState { config: state.config, batch: turn.0 }).step(later) is Err,
{
}

/// Where errors are ignored, a run never ends as failed: after an account
/// whose permissions could not be set it goes on with the manifest, and when
/// it stops it reports success together with the errors that it had.
pub proof fn lemma_ignored_failure_goes_on(state: ProvisioningState)
    requires
        state.batch.policy.ignore_errors,
        state.batch.phase == BatchPhase::Processing,
    ensures
        state.step(ProvisioningEvent::Failed) matches Ok(turn) && turn.0.had_errors
            && turn.0.phase != BatchPhase::Aborted && (turn.1 matches BatchActionView::Stop(
            outcome,
        ) ==> outcome == BatchOutcome { succeeded: true, had_errors: true }),
{
    let turn = state.batch.step(ProvisioningEvent::Failed.as_batch_event())->Ok_0;
    assert(turn.0.asks(turn.1));
    lemma_keeps_policy(state.config, turn);
    lemma_settled_is_for_driver(state.config, turn);
}

/// Going through the manifest changes neither the policy of the run nor
/// that it had errors, once it had one; it aborts no run that ignores errors.
proof fn lemma_keeps_policy(config: XmlConfigView, turn: Turn)
    requires
        turn.0.asks(turn.1),
        turn.0.phase != BatchPhase::Aborted,
    ensures
        settled(config, turn).0.policy == turn.0.policy,
        turn.0.had_errors ==> settled(config, turn).0.had_errors,
        turn.0.policy.ignore_errors ==> settled(config, turn).0.phase != BatchPhase::Aborted,
{
    if turn.1 is Fetch {
        lemma_scan_keeps_policy(config, turn.0);
    }
}

proof fn lemma_scan_keeps_policy(config: XmlConfigView, state: BatchState)
    requires
        state.phase == BatchPhase::Scanning,
        !state.turning,
    ensures
        scan(config, state).0.policy == state.policy,
        state.had_errors ==> scan(config, state).0.had_errors,
        state.policy.ignore_errors ==> scan(config, state).0.phase != BatchPhase::Aborted,
    decreases config.accounts.len() - state.cursor,
{
    if state.cursor < config.accounts.len() {
        let next = match resolved(config, config.accounts[state.cursor as int]) {
            Ok(candidate) => state.offer(candidate),
            Err(_) => state.fail(),
        };
        if next.1 is Fetch {
            lemma_scan_keeps_policy(config, next.0);
        }
    }
}

} // verus!
