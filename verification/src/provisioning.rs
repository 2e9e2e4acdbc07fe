//! Applying the permissions of a configuration to the accounts of a manifest.
//!
//! The source of this batch is the manifest itself: one page that holds its
//! accounts in their order. An account is a candidate once its client and its
//! category have been found; one that refers to an unknown client or category
//! fails like an item that could not be processed.

use vstd::prelude::*;

use crate::batch::laws::lemma_step_asks;
use crate::batch::{
    BatchAction, BatchActionView, BatchError, BatchEvent, BatchEventView, BatchPhase, BatchPolicy,
    BatchProcessor, BatchState, CheckpointKind, Turn,
};
use crate::config::AppConfig;
use crate::resume::optional_view;
use crate::syspass;
use crate::text::{owned, same_text};
use crate::xml::{Account, AccountView, MetaProperty, MetaPropertyView, XmlConfig, XmlConfigView};

pub mod laws;

verus! {

/// A reference of a manifest account that leads nowhere.
#[derive(Debug, PartialEq, Eq, Clone, Copy, Structural)]
pub enum ReferenceError {
    /// No client of the manifest has this identifier.
    UnknownClient(u16),
    /// No category of the manifest has this identifier.
    UnknownCategory(u16),
}

/// The four texts of a manifest account, as an account is observed.
pub open spec fn snapshot_of(
    login: Seq<char>,
    name: Seq<char>,
    category: Seq<char>,
    client: Seq<char>,
) -> syspass::AccountView {
    syspass::AccountView { name, login, category, client }
}

/// Whether a manifest account, with the names of its category and client, is
/// the account that was processed last.
pub fn xml_account_matches_latest_processed(
    xml_account_login: &str,
    xml_account_name: &str,
    xml_account_category: &str,
    xml_account_client: &str,
    latest_processed_account: &syspass::Account,
) -> (matches: bool)
    ensures
        matches == (latest_processed_account@ == snapshot_of(
            xml_account_login@,
            xml_account_name@,
            xml_account_category@,
            xml_account_client@,
        )),
{
    same_text(latest_processed_account.login.as_str(), xml_account_login) && same_text(
        latest_processed_account.name.as_str(),
        xml_account_name,
    ) && same_text(latest_processed_account.category.as_str(), xml_account_category)
        && same_text(latest_processed_account.client.as_str(), xml_account_client)
}

/// A manifest account, with the names of its category and client, as an
/// account is observed.
pub fn get_account_from_xml_account(
    xml_account_login: &str,
    xml_account_name: &str,
    xml_account_category: &str,
    xml_account_client: &str,
) -> (account: syspass::Account)
    ensures
        account@ == snapshot_of(
            xml_account_login@,
            xml_account_name@,
            xml_account_category@,
            xml_account_client@,
        ),
{
    syspass::Account {
        name: owned(xml_account_name),
        login: owned(xml_account_login),
        category: owned(xml_account_category),
        client: owned(xml_account_client),
    }
}

/// Whether an item of the search results is the account that is looked for:
/// its login, its client and its category are those of the account.
pub fn search_item_matches(
    item_login: &str,
    item_client: &str,
    item_category: &str,
    account: &syspass::Account,
) -> (matches: bool)
    ensures
        matches == (item_login@ == account.login@ && item_client@ == account.client@
            && item_category@ == account.category@),
{
    same_text(item_login, account.login.as_str()) && same_text(
        item_client,
        account.client.as_str(),
    ) && same_text(item_category, account.category.as_str())
}

/// The first entity with the identifier, if there is one.
pub open spec fn first_with_id(entities: Seq<MetaPropertyView>, id: u16) -> Option<
    MetaPropertyView,
>
    decreases entities.len(),
{
    if entities.len() == 0 {
        None
    } else if entities[0].id == id {
        Some(entities[0])
    } else {
        first_with_id(entities.drop_first(), id)
    }
}

/// The account with the names that its references stand for: the client is
/// looked up first, then the category.
pub open spec fn resolved(config: XmlConfigView, account: AccountView) -> Result<
    syspass::AccountView,
    ReferenceError,
> {
    match first_with_id(config.clients, account.client_id) {
        None => Err(ReferenceError::UnknownClient(account.client_id)),
        Some(client) => match first_with_id(config.categories, account.category_id) {
            None => Err(ReferenceError::UnknownCategory(account.category_id)),
            Some(category) => Ok(
                snapshot_of(account.login, account.name, category.name, client.name),
            ),
        },
    }
}

/// Finds the first entity with the identifier.
pub fn find_by_id(entities: &Vec<MetaProperty>, id: u16) -> (found: Option<&MetaProperty>)
    ensures
        match found {
            Some(entity) => first_with_id(entities.deep_view(), id) == Some(entity@),
            None => first_with_id(entities.deep_view(), id) is None,
        },
{
    let mut i: usize = 0;
    assert(entities.deep_view().skip(0) =~= entities.deep_view());
    while i < entities.len()
        invariant
            i <= entities.len(),
            first_with_id(entities.deep_view(), id) == first_with_id(
                entities.deep_view().skip(i as int),
                id,
            ),
        decreases entities.len() - i,
    {
        let ghost rest = entities.deep_view().skip(i as int);
        assert(rest[0] == entities[i as int]@);
        assert(rest.drop_first() =~= entities.deep_view().skip(i + 1));
        if entities[i].id == id {
            return Some(&entities[i]);
        }
        i = i + 1;
    }
    None
}

/// Replaces the references of a manifest account by the names of its client
/// and category.
pub fn resolve_account(config: &XmlConfig, account: &Account) -> (candidate: Result<
    syspass::Account,
    ReferenceError,
>)
    ensures
        match candidate {
            Ok(found) => resolved(config@, account@) == Ok::<
                syspass::AccountView,
                ReferenceError,
            >(found@),
            Err(e) => resolved(config@, account@) == Err::<syspass::AccountView, ReferenceError>(
                e,
            ),
        },
{
    match find_by_id(&config.clients, account.client_id) {
        None => Err(ReferenceError::UnknownClient(account.client_id)),
        Some(client) => match find_by_id(&config.categories, account.category_id) {
            None => Err(ReferenceError::UnknownCategory(account.category_id)),
            Some(category) => Ok(
                get_account_from_xml_account(
                    account.login.as_str(),
                    account.name.as_str(),
                    category.name.as_str(),
                    client.name.as_str(),
                ),
            ),
        },
    }
}

/// The turn that ends the run of a processor whose source is exhausted.
pub open spec fn exhausted(state: BatchState) -> Turn {
    let completed = BatchState { phase: BatchPhase::Completed, turning: true, ..state };
    (completed, BatchActionView::Stop(completed.outcome()))
}

/// From a processor that waits for the candidate at its cursor: the manifest
/// is gone through until an account is to be processed or the run is over.
pub open spec fn scan(config: XmlConfigView, state: BatchState) -> Turn
    decreases config.accounts.len() - state.cursor,
{
    if state.cursor >= config.accounts.len() {
        exhausted(state)
    } else {
        let next = match resolved(config, config.accounts[state.cursor as int]) {
            Ok(candidate) => state.offer(candidate),
            Err(_) => state.fail(),
        };
        match next.1 {
            BatchActionView::Fetch { .. } => scan(config, next.0),
            BatchActionView::TurnPage => exhausted(next.0),
            _ => next,
        }
    }
}

/// How many answers of the source an action may still need before the run
/// turns to the driver.
pub open spec fn asked_of_source(action: BatchActionView) -> nat {
    match action {
        BatchActionView::Fetch { .. } => 2,
        BatchActionView::TurnPage => 1,
        _ => 0,
    }
}

/// What a turn of the processor comes to once the manifest has answered
/// every question that the turn asks of the source.
pub open spec fn settled(config: XmlConfigView, turn: Turn) -> Turn {
    match turn.1 {
        BatchActionView::Fetch { .. } => scan(config, turn.0),
        BatchActionView::TurnPage => exhausted(turn.0),
        _ => turn,
    }
}

/// What the driver of a provisioning run reports.
#[derive(Debug, PartialEq, Eq, Clone, Copy, Structural)]
pub enum ProvisioningEvent {
    /// The permissions of the account have been set.
    Applied,
    /// The permissions of the account could not be set.
    Failed,
    /// The checkpoint was written.
    CheckpointWritten,
    /// The checkpoint could not be written.
    CheckpointNotWritten,
}

impl ProvisioningEvent {
    /// The event as the batch processor knows it.
    pub open spec fn as_batch_event(self) -> BatchEventView {
        match self {
            ProvisioningEvent::Applied => BatchEventView::Applied { collect: false },
            ProvisioningEvent::Failed => BatchEventView::Failed,
            ProvisioningEvent::CheckpointWritten => BatchEventView::CheckpointWritten,
            ProvisioningEvent::CheckpointNotWritten => BatchEventView::CheckpointNotWritten,
        }
    }
}

/// The policy of a provisioning run: its checkpoint is the account that was
/// completed last.
pub open spec fn provisioning_policy(ignore_errors: bool, set_accounts: u16) -> BatchPolicy {
    BatchPolicy {
        ignore_errors,
        checkpoint_every: set_accounts,
        checkpoint_kind: CheckpointKind::Latest,
    }
}

/// A provisioning run over the accounts of a manifest.
pub struct ProvisioningWorkflow {
    config: XmlConfig,
    processor: BatchProcessor,
}

/// The state of a provisioning run: its manifest and the state of its batch.
pub struct ProvisioningState {
    pub config: XmlConfigView,
    pub batch: BatchState,
}

impl View for ProvisioningWorkflow {
    type V = ProvisioningState;

    closed spec fn view(&self) -> ProvisioningState {
        ProvisioningState { config: self.config@, batch: self.processor@ }
    }
}

impl ProvisioningState {
    /// The state in which a run begins and the first thing to do.
    pub open spec fn start(
        config: XmlConfigView,
        ignore_errors: bool,
        set_accounts: u16,
        latest: Option<syspass::AccountView>,
    ) -> Turn {
        settled(
            config,
            (
                BatchState::start(
                    provisioning_policy(ignore_errors, set_accounts),
                    latest,
                    None,
                    Seq::empty(),
                ),
                BatchActionView::Fetch { cursor: 0 },
            ),
        )
    }

    /// The batch after an event and what is to be done next.
    pub open spec fn step(self, event: ProvisioningEvent) -> Result<Turn, BatchError> {
        match self.batch.step(event.as_batch_event()) {
            Ok(turn) => Ok(settled(self.config, turn)),
            Err(e) => Err(e),
        }
    }
}

impl ProvisioningWorkflow {
    /// Starts a run over the accounts of a manifest, with the error policy
    /// and the checkpoint cadence of the configuration. With a checkpoint,
    /// the accounts up to and with the one that it names are passed over. The
    /// action is the first thing to do.
    pub fn new(
        config: &AppConfig,
        xml_config: XmlConfig,
        latest_processed_account: Option<syspass::Account>,
    ) -> (started: (ProvisioningWorkflow, BatchAction))
        ensures
            started.0@.config == xml_config@,
            (started.0@.batch, started.1@) == ProvisioningState::start(
                xml_config@,
                config.ignore_errors,
                config.cache.set_accounts,
                optional_view(latest_processed_account),
            ),
            started.0@.batch.asks(started.1@),
            !(started.1 is Fetch) && !(started.1 is TurnPage),
    {
        let policy = BatchPolicy {
            ignore_errors: config.ignore_errors,
            checkpoint_every: config.cache.set_accounts,
            checkpoint_kind: CheckpointKind::Latest,
        };
        let results: Vec<syspass::Account> = Vec::new();
        assert(results.deep_view() =~= Seq::empty());
        let (processor, first) = BatchProcessor::new(
            policy,
            latest_processed_account,
            None,
            results,
        );
        let mut workflow = ProvisioningWorkflow { config: xml_config, processor };
        let action = workflow.settle(first);
        (workflow, action)
    }

    /// Takes in what the driver reports and says what is to be done next:
    /// set the permissions of an account, save a checkpoint, or stop.
    pub fn step(&mut self, event: ProvisioningEvent) -> (next: Result<BatchAction, BatchError>)
        ensures
            match old(self)@.step(event) {
                Ok(turn) => {
                    &&& next is Ok
                    &&& next->Ok_0@ == turn.1
                    &&& final(self)@.config == old(self)@.config
                    &&& final(self)@.batch == turn.0
                    &&& turn.0.asks(turn.1)
                    &&& !(turn.1 is Fetch) && !(turn.1 is TurnPage)
                },
                Err(e) => next == Err::<BatchAction, BatchError>(e) && final(self)@ == old(self)@,
            },
    {
        let event = match event {
            ProvisioningEvent::Applied => BatchEvent::Applied { collect: false },
            ProvisioningEvent::Failed => BatchEvent::Failed,
            ProvisioningEvent::CheckpointWritten => BatchEvent::CheckpointWritten,
            ProvisioningEvent::CheckpointNotWritten => BatchEvent::CheckpointNotWritten,
        };
        proof {
            lemma_step_asks(self.processor@, event@);
        }
        let action = self.processor.step(event)?;
        Ok(self.settle(action))
    }

    /// Where the run stands.
    pub fn phase(&self) -> (phase: BatchPhase)
        ensures
            phase == self@.batch.phase,
    {
        self.processor.phase()
    }

    /// The manifest that the run goes through.
    pub fn manifest(&self) -> (config: &XmlConfig)
        ensures
            config@ == self@.config,
    {
        &self.config
    }

    /// Answers from the manifest what the processor asks of its source.
    fn settle(&mut self, action: BatchAction) -> (next: BatchAction)
        requires
            old(self)@.batch.asks(action@),
        ensures
            final(self)@.config == old(self)@.config,
            (final(self)@.batch, next@) == settled(old(self)@.config, (old(self)@.batch, action@)),
            final(self)@.batch.asks(next@),
            !(next is Fetch) && !(next is TurnPage),
    {
        let ghost config = self@.config;
        let ghost goal = settled(config, (self@.batch, action@));
        let mut action = action;
        loop
            invariant
                self@.config == config,
                self@.batch.asks(action@),
                settled(config, (self@.batch, action@)) == goal,
            ensures
                action is Fetch ==> self@.batch.cursor >= self.config.accounts.len(),
            decreases self.config.accounts.len() - self@.batch.cursor, asked_of_source(action@),
        {
            let cursor = match action {
                BatchAction::Fetch { cursor } => cursor,
                _ => {
                    break;
                },
            };
            if cursor >= self.config.accounts.len() {
                break;
            }
            let event = match resolve_account(&self.config, &self.config.accounts[cursor]) {
                Ok(candidate) => BatchEvent::Candidate(candidate),
                Err(_) => BatchEvent::Unusable,
            };
            proof {
                lemma_step_asks(self.processor@, event@);
            }
            action =
            match self.processor.step(event) {
                Ok(next) => next,
                Err(_) => vstd::pervasive::unreached(),
            };
        }
        if let BatchAction::Fetch { .. } = action {
            proof {
                lemma_step_asks(self.processor@, BatchEventView::PageExhausted);
            }
            action =
            match self.processor.step(BatchEvent::PageExhausted) {
                Ok(next) => next,
                Err(_) => vstd::pervasive::unreached(),
            };
        }
        if let BatchAction::TurnPage = action {
            proof {
                lemma_step_asks(self.processor@, BatchEventView::SourceExhausted);
            }
            action =
            match self.processor.step(BatchEvent::SourceExhausted) {
                Ok(next) => next,
                Err(_) => vstd::pervasive::unreached(),
            };
        }
        action
    }
}

} // verus!
