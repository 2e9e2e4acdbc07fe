//! Finding the accounts that nobody has been given permissions on.
//!
//! The source of this batch is the list of live accounts, page by page. An
//! account is processed by reading its permissions; it is a result when all
//! of them are empty. An account whose permissions could be read has
//! succeeded, whatever they are.

use vstd::prelude::*;

use crate::batch::{
    BatchAction, BatchActionView, BatchError, BatchEvent, BatchEventView, BatchPhase, BatchPolicy,
    BatchProcessor, BatchState, CheckpointKind,
};
use crate::config::AppConfig;
use crate::filter::{AccountFilterOptions, AccountFilterView};
use crate::syspass::{Account, AccountView};

verus! {

/// The users and groups that may view and edit an account.
#[derive(Debug, PartialEq, Eq)]
pub struct PermissionTags {
    pub users_view: Vec<String>,
    pub users_edit: Vec<String>,
    pub groups_view: Vec<String>,
    pub groups_edit: Vec<String>,
}

impl PermissionTags {
    /// Nobody may view or edit.
    pub open spec fn is_empty(&self) -> bool {
        &&& self.users_view@.len() == 0
        &&& self.users_edit@.len() == 0
        &&& self.groups_view@.len() == 0
        &&& self.groups_edit@.len() == 0
    }
}

/// The rows that the permissions of an account are shown in: one for the
/// users, one for the groups.
pub const PERMISSION_ROWS: usize = 2;

/// Whether a page with this many rows can show the permissions of an
/// account. A page with fewer rows than `PERMISSION_ROWS` is of a kind that
/// cannot be read.
pub fn has_permission_rows(row_count: usize) -> (supported: bool)
    ensures
        supported == (row_count >= PERMISSION_ROWS),
{
    row_count >= PERMISSION_ROWS
}

/// Whether an account has been given no permissions at all.
pub fn account_has_empty_permissions(permissions: &PermissionTags) -> (empty: bool)
    ensures
        empty == permissions.is_empty(),
{
    permissions.users_view.len() == 0 && permissions.users_edit.len() == 0
        && permissions.groups_view.len() == 0 && permissions.groups_edit.len() == 0
}

/// What the driver of a discovery run reports.
#[derive(Debug, PartialEq, Eq)]
pub enum DiscoveryEvent {
    /// The account at the cursor of the current page.
    Candidate(Account),
    /// The page holds no account at the cursor.
    PageExhausted,
    /// The list is at the start of its next page.
    PageTurned,
    /// The list has no further page.
    SourceExhausted,
    /// The permissions of the account at hand.
    PermissionsRead(PermissionTags),
    /// The permissions of the account at hand could not be read.
    ReadFailed,
    /// The checkpoint was written.
    CheckpointWritten,
    /// The checkpoint could not be written.
    CheckpointNotWritten,
}

impl DiscoveryEvent {
    /// The event as the batch processor knows it.
    pub open spec fn as_batch_event(self) -> BatchEventView {
        match self {
            DiscoveryEvent::Candidate(account) => BatchEventView::Candidate(account@),
            DiscoveryEvent::PageExhausted => BatchEventView::PageExhausted,
            DiscoveryEvent::PageTurned => BatchEventView::PageTurned,
            DiscoveryEvent::SourceExhausted => BatchEventView::SourceExhausted,
            DiscoveryEvent::PermissionsRead(permissions) => BatchEventView::Applied {
                collect: permissions.is_empty(),
            },
            DiscoveryEvent::ReadFailed => BatchEventView::Failed,
            DiscoveryEvent::CheckpointWritten => BatchEventView::CheckpointWritten,
            DiscoveryEvent::CheckpointNotWritten => BatchEventView::CheckpointNotWritten,
        }
    }
}

/// The policy of a discovery run: its checkpoint is everything found so far.
pub open spec fn discovery_policy(ignore_errors: bool, save_accounts: u16) -> BatchPolicy {
    BatchPolicy {
        ignore_errors,
        checkpoint_every: save_accounts,
        checkpoint_kind: CheckpointKind::Collected,
    }
}

/// The account that a run resumes after: the last that was found before.
pub open spec fn resume_point(found: Seq<AccountView>) -> Option<AccountView> {
    if found.len() > 0 {
        Some(found.last())
    } else {
        None
    }
}

/// The state in which a discovery run begins.
pub open spec fn discovery_start(
    ignore_errors: bool,
    save_accounts: u16,
    found: Seq<AccountView>,
    filter: AccountFilterView,
) -> BatchState {
    BatchState::start(
        discovery_policy(ignore_errors, save_accounts),
        resume_point(found),
        Some(filter),
        found,
    )
}

/// A discovery run over the live accounts.
pub struct DiscoveryWorkflow {
    processor: BatchProcessor,
}

impl View for DiscoveryWorkflow {
    type V = BatchState;

    closed spec fn view(&self) -> BatchState {
        self.processor@
    }
}

impl DiscoveryWorkflow {
    /// Starts a run with the error policy and the checkpoint cadence of the
    /// configuration. `accounts_from_cache` are the accounts that an earlier
    /// run found: they open the results, and the live accounts up to and with
    /// the last of them are passed over. The action is the first thing to do.
    pub fn new(
        config: &AppConfig,
        accounts_from_cache: Vec<Account>,
        filter_options: AccountFilterOptions,
    ) -> (started: (DiscoveryWorkflow, BatchAction))
        ensures
            started.0@ == discovery_start(
                config.ignore_errors,
                config.cache.save_accounts,
                accounts_from_cache.deep_view(),
                filter_options@,
            ),
            started.1@ == (BatchActionView::Fetch { cursor: 0 }),
    {
        let policy = BatchPolicy {
            ignore_errors: config.ignore_errors,
            checkpoint_every: config.cache.save_accounts,
            checkpoint_kind: CheckpointKind::Collected,
        };
        let checkpoint = if accounts_from_cache.len() > 0 {
            Some(accounts_from_cache[accounts_from_cache.len() - 1].clone())
        } else {
            None
        };
        let (processor, first) = BatchProcessor::new(
            policy,
            checkpoint,
            Some(filter_options),
            accounts_from_cache,
        );
        (DiscoveryWorkflow { processor }, first)
    }

    /// Takes in what the driver reports and says what is to be done next. An
    /// event that does not fit the phase is refused and changes nothing.
    pub fn step(&mut self, event: DiscoveryEvent) -> (next: Result<BatchAction, BatchError>)
        ensures
            match old(self)@.step(event.as_batch_event()) {
                Ok(turn) => next is Ok && final(self)@ == turn.0 && next->Ok_0@ == turn.1,
                Err(e) => next == Err::<BatchAction, BatchError>(e) && final(self)@ == old(self)@,
            },
    {
        let event = match event {
            DiscoveryEvent::Candidate(account) => BatchEvent::Candidate(account),
            DiscoveryEvent::PageExhausted => BatchEvent::PageExhausted,
            DiscoveryEvent::PageTurned => BatchEvent::PageTurned,
            DiscoveryEvent::SourceExhausted => BatchEvent::SourceExhausted,
            DiscoveryEvent::PermissionsRead(permissions) => BatchEvent::Applied {
                collect: account_has_empty_permissions(&permissions),
            },
            DiscoveryEvent::ReadFailed => BatchEvent::Failed,
            DiscoveryEvent::CheckpointWritten => BatchEvent::CheckpointWritten,
            DiscoveryEvent::CheckpointNotWritten => BatchEvent::CheckpointNotWritten,
        };
        self.processor.step(event)
    }

    /// Where the run stands.
    pub fn phase(&self) -> (phase: BatchPhase)
        ensures
            phase == self@.phase,
    {
        self.processor.phase()
    }

    /// The accounts found: those of the earlier run, then those of this one
    /// in the order in which they were met.
    pub fn into_accounts(self) -> (accounts: Vec<Account>)
        ensures
            accounts.deep_view() == self@.results,
    {
        self.processor.into_results()
    }
}

} // verus!
