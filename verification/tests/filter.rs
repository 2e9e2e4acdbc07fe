use fake::{Fake, Faker};
use spt::filter::{
    account_matches_filters, get_account_filter_options, get_string_or_blank, AccountFilterOptions,
};
use spt::syspass::Account;

fn get_random_string() -> String {
    Faker.fake::<String>()
}

fn get_filter() -> AccountFilterOptions {
    AccountFilterOptions {
        category_name: "Apps".to_string(),
        client_name: "BirchShop".to_string(),
        login_starts_with: "demo".to_string(),
        name_starts_with: "Hercules".to_string(),
    }
}

fn get_account() -> Account {
    Account {
        name: "Hercules II".to_string(),
        login: "demo-acc".to_string(),
        category: "Apps".to_string(),
        client: "BirchShop".to_string(),
    }
}

#[test]
fn return_true_for_match() {
    let filter_options = get_filter();

    let account = get_account();

    assert!(account_matches_filters(&account, &filter_options));
}

#[test]
fn return_false_for_category_mismatch() {
    let filter_options = get_filter();

    let mut account = get_account();
    account.category = get_random_string();

    assert!(!account_matches_filters(&account, &filter_options));
}

#[test]
fn return_false_for_client_mismatch() {
    let filter_options = get_filter();

    let mut account = get_account();
    account.client = get_random_string();

    assert!(!account_matches_filters(&account, &filter_options));
}

#[test]
fn return_false_for_name_mask_mismatch() {
    let filter_options = get_filter();

    let mut account = get_account();
    account.name = get_random_string();

    assert!(!account_matches_filters(&account, &filter_options));
}

#[test]
fn return_false_for_login_mask_mismatch() {
    let filter_options = get_filter();

    let mut account = get_account();
    account.login = get_random_string();

    assert!(!account_matches_filters(&account, &filter_options));
}

#[test]
fn ignore_filters_with_blank_values() {
    let mut filter_options = get_filter();
    filter_options.category_name = String::new();
    filter_options.client_name = String::new();
    filter_options.login_starts_with = String::new();
    filter_options.name_starts_with = String::new();

    let account = get_account();

    assert!(account_matches_filters(&account, &filter_options));
}

#[test]
fn blank_filter_matches_any_account() {
    let filter_options = get_account_filter_options(None, None, None, None);
    let account = Account {
        name: get_random_string(),
        login: get_random_string(),
        category: get_random_string(),
        client: get_random_string(),
    };
    assert!(account_matches_filters(&account, &filter_options));
    assert!(account_matches_filters(&account, &filter_options));
}

#[test]
fn prefix_must_stand_at_the_start() {
    let mut filter_options = get_account_filter_options(None, None, None, None);
    filter_options.login_starts_with = "acc".to_string();
    assert!(!account_matches_filters(&get_account(), &filter_options));
    filter_options.login_starts_with = "demo-acc".to_string();
    assert!(account_matches_filters(&get_account(), &filter_options));
    filter_options.login_starts_with = "demo-acc-".to_string();
    assert!(!account_matches_filters(&get_account(), &filter_options));
}

#[test]
fn category_must_be_equal_not_a_prefix() {
    let mut filter_options = get_account_filter_options(None, None, None, None);
    filter_options.category_name = "App".to_string();
    assert!(!account_matches_filters(&get_account(), &filter_options));
    filter_options.category_name = "Apps".to_string();
    filter_options.client_name = "Birch".to_string();
    assert!(!account_matches_filters(&get_account(), &filter_options));
}

#[test]
fn string_or_blank() {
    let given = "Apps".to_string();
    assert_eq!(get_string_or_blank(Some(&given)), "Apps".to_string());
    assert_eq!(get_string_or_blank(None), String::new());
}

#[test]
fn filter_options_from_command_line() {
    let category = "Apps".to_string();
    let login = "demo".to_string();
    let filter_options = get_account_filter_options(Some(&category), None, Some(&login), None);
    assert_eq!(
        filter_options,
        AccountFilterOptions {
            category_name: "Apps".to_string(),
            client_name: String::new(),
            login_starts_with: "demo".to_string(),
            name_starts_with: String::new(),
        }
    );
}
