//! The batch processor: one pass over the candidates of a paged source.
//!
//! The processor works nothing on the outside itself. It says what is to be
//! done next, is told what came of it, and decides from that alone. The one
//! who drives it fetches candidates, applies the operation to an item, writes
//! checkpoints and turns pages.

use vstd::prelude::*;

use crate::filter::{account_matches_filters, filter_matches, AccountFilterOptions, AccountFilterView};
use crate::resume::{ResumeDecision, ResumeMatcher, ResumeMatcherView};
use crate::syspass::{copy_accounts, Account, AccountView};

pub mod laws;

verus! {

/// What is saved as a checkpoint.
#[derive(Debug, PartialEq, Eq, Clone, Copy, Structural)]
pub enum CheckpointKind {
    /// The item that was completed last.
    Latest,
    /// All results gathered so far.
    Collected,
}

/// How a batch treats failures and how often it saves its progress.
#[derive(Debug, PartialEq, Eq, Clone, Copy, Structural)]
pub struct BatchPolicy {
    /// Go on after an item has failed.
    pub ignore_errors: bool,
    /// Save a checkpoint once this many items have succeeded since the last
    /// one that was written.
    pub checkpoint_every: u16,
    pub checkpoint_kind: CheckpointKind,
}

/// Where a run stands.
#[derive(Debug, PartialEq, Eq, Clone, Copy, Structural)]
pub enum BatchPhase {
    /// Waiting for the source: for a candidate or for the next page.
    Scanning,
    /// The operation is being applied to an item.
    Processing,
    /// A checkpoint is being written.
    Checkpointing,
    /// The source is exhausted.
    Completed,
    /// An item failed and errors are not ignored.
    Aborted,
}

/// How a run ended.
#[derive(Debug, PartialEq, Eq, Clone, Copy, Structural)]
pub struct BatchOutcome {
    pub succeeded: bool,
    pub had_errors: bool,
}

/// An event that the processor cannot take in its phase.
#[derive(Debug, PartialEq, Eq, Clone, Copy, Structural)]
pub enum BatchError {
    UnexpectedEvent,
}

/// The progress of a run, as it is saved.
#[derive(Debug, PartialEq, Eq)]
pub enum CheckpointRecord {
    Latest(Account),
    Collected(Vec<Account>),
}

/// A checkpoint, its accounts as their views.
pub enum CheckpointRecordView {
    Latest(AccountView),
    Collected(Seq<AccountView>),
}

impl View for CheckpointRecord {
    type V = CheckpointRecordView;

    open spec fn view(&self) -> CheckpointRecordView {
        match *self {
            CheckpointRecord::Latest(account) => CheckpointRecordView::Latest(account@),
            CheckpointRecord::Collected(accounts) => CheckpointRecordView::Collected(
                accounts.deep_view(),
            ),
        }
    }
}

/// What the driver reports.
#[derive(Debug, PartialEq, Eq)]
pub enum BatchEvent {
    /// The source yields the candidate at the cursor.
    Candidate(Account),
    /// The source has a candidate at the cursor that cannot be processed.
    Unusable,
    /// The page holds no candidate at the cursor.
    PageExhausted,
    /// The source is at the start of its next page.
    PageTurned,
    /// The source has no further page.
    SourceExhausted,
    /// The operation succeeded; `collect` tells whether the item is a result.
    Applied { collect: bool },
    /// The operation failed.
    Failed,
    /// The checkpoint was written.
    CheckpointWritten,
    /// The checkpoint could not be written.
    CheckpointNotWritten,
}

/// An event, its account as its view.
pub enum BatchEventView {
    Candidate(AccountView),
    Unusable,
    PageExhausted,
    PageTurned,
    SourceExhausted,
    Applied { collect: bool },
    Failed,
    CheckpointWritten,
    CheckpointNotWritten,
}

impl View for BatchEvent {
    type V = BatchEventView;

    open spec fn view(&self) -> BatchEventView {
        match *self {
            BatchEvent::Candidate(account) => BatchEventView::Candidate(account@),
            BatchEvent::Unusable => BatchEventView::Unusable,
            BatchEvent::PageExhausted => BatchEventView::PageExhausted,
            BatchEvent::PageTurned => BatchEventView::PageTurned,
            BatchEvent::SourceExhausted => BatchEventView::SourceExhausted,
            BatchEvent::Applied { collect } => BatchEventView::Applied { collect },
            BatchEvent::Failed => BatchEventView::Failed,
            BatchEvent::CheckpointWritten => BatchEventView::CheckpointWritten,
            BatchEvent::CheckpointNotWritten => BatchEventView::CheckpointNotWritten,
        }
    }
}

/// What the driver is to do next.
#[derive(Debug, PartialEq, Eq)]
pub enum BatchAction {
    /// Fetch the candidate at `cursor` of the current page.
    Fetch { cursor: usize },
    /// Move the source to its next page.
    TurnPage,
    /// Apply the operation to the item.
    Apply(Account),
    /// Write the checkpoint.
    SaveCheckpoint(CheckpointRecord),
    /// The run is over.
    Stop(BatchOutcome),
}

/// An action, its accounts as their views.
pub enum BatchActionView {
    Fetch { cursor: usize },
    TurnPage,
    Apply(AccountView),
    SaveCheckpoint(CheckpointRecordView),
    Stop(BatchOutcome),
}

impl View for BatchAction {
    type V = BatchActionView;

    open spec fn view(&self) -> BatchActionView {
        match *self {
            BatchAction::Fetch { cursor } => BatchActionView::Fetch { cursor },
            BatchAction::TurnPage => BatchActionView::TurnPage,
            BatchAction::Apply(account) => BatchActionView::Apply(account@),
            BatchAction::SaveCheckpoint(record) => BatchActionView::SaveCheckpoint(record@),
            BatchAction::Stop(outcome) => BatchActionView::Stop(outcome),
        }
    }
}

/// The state of a run.
pub struct BatchState {
    pub phase: BatchPhase,
    /// While scanning: a page turn was asked for, not a candidate.
    pub turning: bool,
    pub policy: BatchPolicy,
    pub matcher: ResumeMatcherView,
    pub filter: Option<AccountFilterView>,
    /// The place in the current page of the candidate asked for last.
    pub cursor: usize,
    /// The items that succeeded since the last checkpoint that was written,
    /// counted up to `policy.checkpoint_every`.
    pub since_checkpoint: u16,
    /// The items that succeeded in this run, counted up to `u64::MAX`.
    pub successes: u64,
    pub had_errors: bool,
    /// The item that the operation is being applied to, or was applied to
    /// last.
    pub current: Option<AccountView>,
    pub results: Seq<AccountView>,
}

/// A state together with what is to be done in it.
pub type Turn = (BatchState, BatchActionView);

impl BatchState {
    /// The state in which a run begins.
    pub open spec fn start(
        policy: BatchPolicy,
        checkpoint: Option<AccountView>,
        filter: Option<AccountFilterView>,
        results: Seq<AccountView>,
    ) -> BatchState {
        BatchState {
            phase: BatchPhase::Scanning,
            turning: false,
            policy,
            matcher: ResumeMatcherView::start(checkpoint),
            filter,
            cursor: 0,
            since_checkpoint: 0,
            successes: 0,
            had_errors: false,
            current: None,
            results,
        }
    }

    /// A run is reported as failed when an item failed and errors are not
    /// ignored, and as succeeded otherwise.
    pub open spec fn outcome(self) -> BatchOutcome {
        BatchOutcome {
            succeeded: !self.had_errors || self.policy.ignore_errors,
            had_errors: self.had_errors,
        }
    }

    /// Whether the filter, if there is one, lets the candidate pass.
    pub open spec fn admits(self, candidate: AccountView) -> bool {
        match self.filter {
            Some(filter) => filter_matches(candidate, filter),
            None => true,
        }
    }

    /// What is saved when a checkpoint is due.
    pub open spec fn record(self, latest: AccountView) -> CheckpointRecordView {
        match self.policy.checkpoint_kind {
            CheckpointKind::Latest => CheckpointRecordView::Latest(latest),
            CheckpointKind::Collected => CheckpointRecordView::Collected(self.results),
        }
    }

    /// On to the candidate after the cursor, or to the next page where the
    /// cursor cannot move further.
    pub open spec fn advance(self) -> Turn {
        if self.cursor < usize::MAX {
            let cursor = (self.cursor + 1) as usize;
            (
                BatchState { phase: BatchPhase::Scanning, turning: false, cursor, ..self },
                BatchActionView::Fetch { cursor },
            )
        } else {
            (
                BatchState { phase: BatchPhase::Scanning, turning: true, ..self },
                BatchActionView::TurnPage,
            )
        }
    }

    /// An item failed: the run stops unless errors are ignored.
    pub open spec fn fail(self) -> Turn {
        let failed = BatchState { had_errors: true, ..self };
        if self.policy.ignore_errors {
            failed.advance()
        } else {
            let aborted = BatchState { phase: BatchPhase::Aborted, ..failed };
            (aborted, BatchActionView::Stop(aborted.outcome()))
        }
    }

    /// A candidate arrives: it is passed over while the checkpoint is looked
    /// for and where the filter rejects it, and processed otherwise.
    pub open spec fn offer(self, candidate: AccountView) -> Turn {
        let decision = self.matcher.decision(candidate);
        let met = BatchState { matcher: self.matcher.after(candidate), ..self };
        if decision == ResumeDecision::NotResuming && self.admits(candidate) {
            (
                BatchState { phase: BatchPhase::Processing, current: Some(candidate), ..met },
                BatchActionView::Apply(candidate),
            )
        } else {
            met.advance()
        }
    }

    /// The count of successes since the last checkpoint, after one more.
    pub open spec fn counted(self) -> u16 {
        if self.since_checkpoint < self.policy.checkpoint_every {
            (self.since_checkpoint + 1) as u16
        } else {
            self.since_checkpoint
        }
    }

    /// The item at hand succeeded: it is counted, joins the results if it is
    /// one, and a checkpoint is saved if one is due.
    pub open spec fn succeed(self, item: AccountView, collect: bool) -> Turn {
        let done = BatchState {
            successes: if self.successes < u64::MAX {
                (self.successes + 1) as u64
            } else {
                self.successes
            },
            since_checkpoint: self.counted(),
            results: if collect {
                self.results.push(item)
            } else {
                self.results
            },
            ..self
        };
        if done.since_checkpoint >= done.policy.checkpoint_every {
            (
                BatchState { phase: BatchPhase::Checkpointing, ..done },
                BatchActionView::SaveCheckpoint(done.record(item)),
            )
        } else {
            done.advance()
        }
    }

    /// Whether `action` is what a run in this state waits for.
    pub open spec fn asks(self, action: BatchActionView) -> bool {
        match action {
            BatchActionView::Fetch { cursor } => self.phase == BatchPhase::Scanning
                && !self.turning && self.cursor == cursor,
            BatchActionView::TurnPage => self.phase == BatchPhase::Scanning && self.turning,
            BatchActionView::Apply(item) => self.phase == BatchPhase::Processing && self.current
                == Some(item),
            BatchActionView::SaveCheckpoint(_) => self.phase == BatchPhase::Checkpointing,
            BatchActionView::Stop(outcome) => (self.phase == BatchPhase::Completed || self.phase
                == BatchPhase::Aborted) && outcome == self.outcome(),
        }
    }

    /// The state after an event and what is to be done next, or the refusal
    /// of an event that does not fit the phase.
    pub open spec fn step(self, event: BatchEventView) -> Result<Turn, BatchError> {
        match (self.phase, event) {
            (BatchPhase::Scanning, BatchEventView::Candidate(candidate)) if !self.turning => Ok(
                self.offer(candidate),
            ),
            (BatchPhase::Scanning, BatchEventView::Unusable) if !self.turning => Ok(self.fail()),
            (BatchPhase::Scanning, BatchEventView::PageExhausted) if !self.turning => Ok(
                (BatchState { turning: true, ..self }, BatchActionView::TurnPage),
            ),
            (BatchPhase::Scanning, BatchEventView::PageTurned) if self.turning => Ok(
                (
                    BatchState { turning: false, cursor: 0, ..self },
                    BatchActionView::Fetch { cursor: 0 },
                ),
            ),
            (BatchPhase::Scanning, BatchEventView::SourceExhausted) if self.turning => {
                let completed = BatchState { phase: BatchPhase::Completed, ..self };
                Ok((completed, BatchActionView::Stop(completed.outcome())))
            },
            (BatchPhase::Processing, BatchEventView::Applied { collect }) => match self.current {
                Some(item) => Ok(self.succeed(item, collect)),
                None => Err(BatchError::UnexpectedEvent),
            },
            (BatchPhase::Processing, BatchEventView::Failed) => Ok(self.fail()),
            (BatchPhase::Checkpointing, BatchEventView::CheckpointWritten) => Ok(
                BatchState { since_checkpoint: 0, ..self }.advance(),
            ),
            (BatchPhase::Checkpointing, BatchEventView::CheckpointNotWritten) => Ok(
                self.advance(),
            ),
            _ => Err(BatchError::UnexpectedEvent),
        }
    }
}

/// The batch processor.
pub struct BatchProcessor {
    phase: BatchPhase,
    turning: bool,
    policy: BatchPolicy,
    matcher: ResumeMatcher,
    filter: Option<AccountFilterOptions>,
    cursor: usize,
    since_checkpoint: u16,
    successes: u64,
    had_errors: bool,
    current: Option<Account>,
    results: Vec<Account>,
}

impl View for BatchProcessor {
    type V = BatchState;

    closed spec fn view(&self) -> BatchState {
        BatchState {
            phase: self.phase,
            turning: self.turning,
            policy: self.policy,
            matcher: self.matcher@,
            filter: match self.filter {
                Some(filter) => Some(filter@),
                None => None,
            },
            cursor: self.cursor,
            since_checkpoint: self.since_checkpoint,
            successes: self.successes,
            had_errors: self.had_errors,
            current: match self.current {
                Some(account) => Some(account@),
                None => None,
            },
            results: self.results.deep_view(),
        }
    }
}

impl BatchProcessor {
    /// A processor at the start of a run, and the first thing to do: fetch
    /// the first candidate. `results` are those of an earlier run.
    pub fn new(
        policy: BatchPolicy,
        checkpoint: Option<Account>,
        filter: Option<AccountFilterOptions>,
        results: Vec<Account>,
    ) -> (started: (BatchProcessor, BatchAction))
        ensures
            started.0@ == BatchState::start(
                policy,
                crate::resume::optional_view(checkpoint),
                match filter {
                    Some(filter) => Some(filter@),
                    None => None,
                },
                results.deep_view(),
            ),
            started.1@ == (BatchActionView::Fetch { cursor: 0 }),
    {
        let processor = BatchProcessor {
            phase: BatchPhase::Scanning,
            turning: false,
            policy,
            matcher: ResumeMatcher::new(checkpoint),
            filter,
            cursor: 0,
            since_checkpoint: 0,
            successes: 0,
            had_errors: false,
            current: None,
            results,
        };
        (processor, BatchAction::Fetch { cursor: 0 })
    }

    /// Takes in what the driver reports and says what is to be done next. An
    /// event that does not fit the phase is refused and changes nothing.
    pub fn step(&mut self, event: BatchEvent) -> (next: Result<BatchAction, BatchError>)
        ensures
            match old(self)@.step(event@) {
                Ok(turn) => next is Ok && final(self)@ == turn.0 && next->Ok_0@ == turn.1,
                Err(e) => next == Err::<BatchAction, BatchError>(e) && final(self)@ == old(self)@,
            },
    {
        match self.phase {
            BatchPhase::Scanning => {
                if self.turning {
                    match event {
                        BatchEvent::PageTurned => {
                            self.turning = false;
                            self.cursor = 0;
                            Ok(BatchAction::Fetch { cursor: 0 })
                        },
                        BatchEvent::SourceExhausted => {
                            self.phase = BatchPhase::Completed;
                            Ok(BatchAction::Stop(self.outcome()))
                        },
                        _ => Err(BatchError::UnexpectedEvent),
                    }
                } else {
                    match event {
                        BatchEvent::Candidate(candidate) => Ok(self.offer(candidate)),
                        BatchEvent::Unusable => Ok(self.fail()),
                        BatchEvent::PageExhausted => {
                            self.turning = true;
                            Ok(BatchAction::TurnPage)
                        },
                        _ => Err(BatchError::UnexpectedEvent),
                    }
                }
            },
            BatchPhase::Processing => {
                match event {
                    BatchEvent::Applied { collect } => {
                        let item = match &self.current {
                            Some(item) => item.clone(),
                            None => {
                                return Err(BatchError::UnexpectedEvent);
                            },
                        };
                        Ok(self.succeed(item, collect))
                    },
                    BatchEvent::Failed => Ok(self.fail()),
                    _ => Err(BatchError::UnexpectedEvent),
                }
            },
            BatchPhase::Checkpointing => {
                match event {
                    BatchEvent::CheckpointWritten => {
                        self.since_checkpoint = 0;
                        Ok(self.advance())
                    },
                    BatchEvent::CheckpointNotWritten => Ok(self.advance()),
                    _ => Err(BatchError::UnexpectedEvent),
                }
            },
            BatchPhase::Completed => Err(BatchError::UnexpectedEvent),
            BatchPhase::Aborted => Err(BatchError::UnexpectedEvent),
        }
    }

    fn advance(&mut self) -> (action: BatchAction)
        ensures
            final(self)@ == old(self)@.advance().0,
            action@ == old(self)@.advance().1,
    {
        self.phase = BatchPhase::Scanning;
        if self.cursor < usize::MAX {
            self.turning = false;
            self.cursor = self.cursor + 1;
            BatchAction::Fetch { cursor: self.cursor }
        } else {
            self.turning = true;
            BatchAction::TurnPage
        }
    }

    fn fail(&mut self) -> (action: BatchAction)
        ensures
            final(self)@ == old(self)@.fail().0,
            action@ == old(self)@.fail().1,
    {
        self.had_errors = true;
        if self.policy.ignore_errors {
            self.advance()
        } else {
            self.phase = BatchPhase::Aborted;
            BatchAction::Stop(self.outcome())
        }
    }

    fn offer(&mut self, candidate: Account) -> (action: BatchAction)
        ensures
            final(self)@ == old(self)@.offer(candidate@).0,
            action@ == old(self)@.offer(candidate@).1,
    {
        let decision = self.matcher.should_resume(&candidate);
        let admitted = match &self.filter {
            Some(filter) => account_matches_filters(&candidate, filter),
            None => true,
        };
        match decision {
            ResumeDecision::NotResuming => {
                if admitted {
                    let item = candidate.clone();
                    self.phase = BatchPhase::Processing;
                    self.current = Some(candidate);
                    BatchAction::Apply(item)
                } else {
                    self.advance()
                }
            },
            _ => self.advance(),
        }
    }

    fn succeed(&mut self, item: Account, collect: bool) -> (action: BatchAction)
        ensures
            final(self)@ == old(self)@.succeed(item@, collect).0,
            action@ == old(self)@.succeed(item@, collect).1,
    {
        if self.successes < u64::MAX {
            self.successes = self.successes + 1;
        }
        if self.since_checkpoint < self.policy.checkpoint_every {
            self.since_checkpoint = self.since_checkpoint + 1;
        }
        if collect {
            let ghost before = self.results.deep_view();
            let result = item.clone();
            self.results.push(result);
            assert(self.results.deep_view() =~= before.push(item@));
        }
        if self.since_checkpoint >= self.policy.checkpoint_every {
            self.phase = BatchPhase::Checkpointing;
            let record = match self.policy.checkpoint_kind {
                CheckpointKind::Latest => CheckpointRecord::Latest(item),
                CheckpointKind::Collected => CheckpointRecord::Collected(
                    copy_accounts(&self.results),
                ),
            };
            BatchAction::SaveCheckpoint(record)
        } else {
            self.advance()
        }
    }

    /// Where the run stands.
    pub fn phase(&self) -> (phase: BatchPhase)
        ensures
            phase == self@.phase,
    {
        self.phase
    }

    /// The place in the current page of the candidate asked for last.
    pub fn cursor(&self) -> (cursor: usize)
        ensures
            cursor == self@.cursor,
    {
        self.cursor
    }

    /// The items that succeeded in this run.
    pub fn successes(&self) -> (successes: u64)
        ensures
            successes == self@.successes,
    {
        self.successes
    }

    /// The results gathered so far.
    pub fn results(&self) -> (results: &Vec<Account>)
        ensures
            results.deep_view() == self@.results,
    {
        &self.results
    }

    /// The results gathered.
    pub fn into_results(self) -> (results: Vec<Account>)
        ensures
            results.deep_view() == self@.results,
    {
        self.results
    }

    /// How the run ends, or would end were its source exhausted now.
    pub fn outcome(&self) -> (outcome: BatchOutcome)
        ensures
            outcome == self@.outcome(),
    {
        BatchOutcome {
            succeeded: !self.had_errors || self.policy.ignore_errors,
            had_errors: self.had_errors,
        }
    }
}

} // verus!
