use spt::batch::{BatchAction, BatchError, BatchOutcome, BatchPhase, CheckpointRecord};
use spt::config::{
    AppConfig, AuthConfig, CacheConfig, DelaysConfig, EntityPermissionsConfig, PermissionsConfig,
    WebDriverConfig,
};
use spt::discovery::{
    account_has_empty_permissions, has_permission_rows, DiscoveryEvent, DiscoveryWorkflow,
    PermissionTags, PERMISSION_ROWS,
};
use spt::filter::AccountFilterOptions;
use spt::syspass::Account;

fn account(login: &str, category: &str) -> Account {
    Account {
        name: format!("Name of {}", login),
        login: login.to_string(),
        category: category.to_string(),
        client: "Acme".to_string(),
    }
}

fn settings(ignore_errors: bool, save_accounts: u16) -> AppConfig {
    AppConfig {
        syspass_url: "http://localhost:18080".to_string(),
        webdriver: WebDriverConfig { url: "http://localhost:9515".to_string(), args: vec![] },
        auth: AuthConfig { login: "admin".to_string(), password: "secret".to_string() },
        ignore_errors,
        permissions: PermissionsConfig {
            user: EntityPermissionsConfig { view: vec![], edit: vec![] },
            group: EntityPermissionsConfig { view: vec![], edit: vec![] },
            owner: "Mr.Editor".to_string(),
            main_group: "Demo group 1".to_string(),
            private_account: false,
            private_account_for_group: true,
        },
        delays: DelaysConfig {
            after_login: 300,
            after_redirect_to_index: 500,
            after_redirect_to_edit: 500,
            after_search: 500,
            menu_open: 300,
        },
        cache: CacheConfig { save_accounts, set_accounts: 9 },
    }
}

fn no_filter() -> AccountFilterOptions {
    AccountFilterOptions {
        category_name: String::new(),
        client_name: String::new(),
        login_starts_with: String::new(),
        name_starts_with: String::new(),
    }
}

fn tags(users_view: &[&str], users_edit: &[&str], groups_view: &[&str], groups_edit: &[&str]) -> PermissionTags {
    PermissionTags {
        users_view: users_view.iter().map(|t| t.to_string()).collect(),
        users_edit: users_edit.iter().map(|t| t.to_string()).collect(),
        groups_view: groups_view.iter().map(|t| t.to_string()).collect(),
        groups_edit: groups_edit.iter().map(|t| t.to_string()).collect(),
    }
}

#[test]
fn permissions_are_empty_only_if_all_four_are() {
    assert!(account_has_empty_permissions(&tags(&[], &[], &[], &[])));
    assert!(!account_has_empty_permissions(&tags(&["admin"], &[], &[], &[])));
    assert!(!account_has_empty_permissions(&tags(&[], &["admin"], &[], &[])));
    assert!(!account_has_empty_permissions(&tags(&[], &[], &["Admins"], &[])));
    assert!(!account_has_empty_permissions(&tags(&[], &[], &[], &["Admins"])));
}

#[test]
fn accounts_with_empty_permissions_are_collected() {
    let (mut workflow, first) = DiscoveryWorkflow::new(&settings(false, 10), vec![], no_filter());
    assert_eq!(first, BatchAction::Fetch { cursor: 0 });
    assert_eq!(
        workflow.step(DiscoveryEvent::Candidate(account("a1", "Apps"))),
        Ok(BatchAction::Apply(account("a1", "Apps")))
    );
    assert_eq!(
        workflow.step(DiscoveryEvent::PermissionsRead(tags(&[], &[], &[], &[]))),
        Ok(BatchAction::Fetch { cursor: 1 })
    );
    assert_eq!(
        workflow.step(DiscoveryEvent::Candidate(account("a2", "Apps"))),
        Ok(BatchAction::Apply(account("a2", "Apps")))
    );
    assert_eq!(
        workflow.step(DiscoveryEvent::PermissionsRead(tags(&["admin"], &[], &[], &[]))),
        Ok(BatchAction::Fetch { cursor: 2 })
    );
    assert_eq!(workflow.step(DiscoveryEvent::PageExhausted), Ok(BatchAction::TurnPage));
    assert_eq!(workflow.step(DiscoveryEvent::PageTurned), Ok(BatchAction::Fetch { cursor: 0 }));
    assert_eq!(
        workflow.step(DiscoveryEvent::Candidate(account("a3", "Apps"))),
        Ok(BatchAction::Apply(account("a3", "Apps")))
    );
    assert_eq!(
        workflow.step(DiscoveryEvent::PermissionsRead(tags(&[], &[], &[], &[]))),
        Ok(BatchAction::Fetch { cursor: 1 })
    );
    assert_eq!(workflow.step(DiscoveryEvent::PageExhausted), Ok(BatchAction::TurnPage));
    assert_eq!(workflow.phase(), BatchPhase::Scanning);
    assert_eq!(
        workflow.step(DiscoveryEvent::SourceExhausted),
        Ok(BatchAction::Stop(BatchOutcome { succeeded: true, had_errors: false }))
    );
    assert_eq!(workflow.phase(), BatchPhase::Completed);
    assert_eq!(workflow.into_accounts(), vec![account("a1", "Apps"), account("a3", "Apps")]);
}

#[test]
fn every_read_counts_towards_the_checkpoint() {
    let (mut workflow, _) = DiscoveryWorkflow::new(&settings(false, 2), vec![], no_filter());
    workflow.step(DiscoveryEvent::Candidate(account("a1", "Apps"))).unwrap();
    assert_eq!(
        workflow.step(DiscoveryEvent::PermissionsRead(tags(&[], &[], &[], &[]))),
        Ok(BatchAction::Fetch { cursor: 1 })
    );
    workflow.step(DiscoveryEvent::Candidate(account("a2", "Apps"))).unwrap();
    assert_eq!(
        workflow.step(DiscoveryEvent::PermissionsRead(tags(&["admin"], &[], &[], &[]))),
        Ok(BatchAction::SaveCheckpoint(CheckpointRecord::Collected(vec![account("a1", "Apps")])))
    );
    assert_eq!(
        workflow.step(DiscoveryEvent::CheckpointWritten),
        Ok(BatchAction::Fetch { cursor: 2 })
    );
}

#[test]
fn cached_accounts_open_the_results_and_name_the_resume_point() {
    let cached = vec![account("a1", "Apps"), account("a2", "Apps")];
    let (mut workflow, _) = DiscoveryWorkflow::new(&settings(false, 10), cached, no_filter());
    assert_eq!(
        workflow.step(DiscoveryEvent::Candidate(account("a1", "Apps"))),
        Ok(BatchAction::Fetch { cursor: 1 })
    );
    assert_eq!(
        workflow.step(DiscoveryEvent::Candidate(account("a2", "Apps"))),
        Ok(BatchAction::Fetch { cursor: 2 })
    );
    assert_eq!(
        workflow.step(DiscoveryEvent::Candidate(account("a3", "Apps"))),
        Ok(BatchAction::Apply(account("a3", "Apps")))
    );
    assert_eq!(
        workflow.step(DiscoveryEvent::PermissionsRead(tags(&[], &[], &[], &[]))),
        Ok(BatchAction::Fetch { cursor: 3 })
    );
    assert_eq!(
        workflow.into_accounts(),
        vec![account("a1", "Apps"), account("a2", "Apps"), account("a3", "Apps")]
    );
}

#[test]
fn filtered_accounts_are_passed_over() {
    let mut filter = no_filter();
    filter.category_name = "Shells".to_string();
    let (mut workflow, _) = DiscoveryWorkflow::new(&settings(false, 10), vec![], filter);
    assert_eq!(
        workflow.step(DiscoveryEvent::Candidate(account("a1", "Apps"))),
        Ok(BatchAction::Fetch { cursor: 1 })
    );
    assert_eq!(
        workflow.step(DiscoveryEvent::Candidate(account("a2", "Shells"))),
        Ok(BatchAction::Apply(account("a2", "Shells")))
    );
}

#[test]
fn failed_read_aborts_or_goes_on() {
    let (mut workflow, _) = DiscoveryWorkflow::new(&settings(false, 10), vec![], no_filter());
    workflow.step(DiscoveryEvent::Candidate(account("a1", "Apps"))).unwrap();
    assert_eq!(
        workflow.step(DiscoveryEvent::ReadFailed),
        Ok(BatchAction::Stop(BatchOutcome { succeeded: false, had_errors: true }))
    );
    assert_eq!(
        workflow.step(DiscoveryEvent::Candidate(account("a2", "Apps"))),
        Err(BatchError::UnexpectedEvent)
    );

    let (mut workflow, _) = DiscoveryWorkflow::new(&settings(true, 10), vec![], no_filter());
    workflow.step(DiscoveryEvent::Candidate(account("a1", "Apps"))).unwrap();
    assert_eq!(workflow.step(DiscoveryEvent::ReadFailed), Ok(BatchAction::Fetch { cursor: 1 }));
    assert_eq!(workflow.step(DiscoveryEvent::PageExhausted), Ok(BatchAction::TurnPage));
    assert_eq!(
        workflow.step(DiscoveryEvent::SourceExhausted),
        Ok(BatchAction::Stop(BatchOutcome { succeeded: true, had_errors: true }))
    );
}

#[test]
fn permissions_need_two_rows() {
    assert_eq!(PERMISSION_ROWS, 2);
    assert!(!has_permission_rows(0));
    assert!(!has_permission_rows(1));
    assert!(has_permission_rows(2));
    assert!(has_permission_rows(6));
}
