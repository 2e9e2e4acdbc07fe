//! Which accounts a discovery run looks at.

use vstd::prelude::*;

use crate::syspass::{Account, AccountView};
use crate::text::starts_with;

verus! {

/// What an account must show to be looked at. A blank field asks nothing.
#[derive(Debug, PartialEq, Eq)]
pub struct AccountFilterOptions {
    pub category_name: String,
    pub client_name: String,
    pub login_starts_with: String,
    pub name_starts_with: String,
}

/// The four wishes of a filter, as sequences of characters.
pub struct AccountFilterView {
    pub category_name: Seq<char>,
    pub client_name: Seq<char>,
    pub login_starts_with: Seq<char>,
    pub name_starts_with: Seq<char>,
}

impl View for AccountFilterOptions {
    type V = AccountFilterView;

    open spec fn view(&self) -> AccountFilterView {
        AccountFilterView {
            category_name: self.category_name@,
            client_name: self.client_name@,
            login_starts_with: self.login_starts_with@,
            name_starts_with: self.name_starts_with@,
        }
    }
}

impl Clone for AccountFilterOptions {
    fn clone(&self) -> (copy: Self)
        ensures
            copy == *self,
    {
        AccountFilterOptions {
            category_name: self.category_name.clone(),
            client_name: self.client_name.clone(),
            login_starts_with: self.login_starts_with.clone(),
            name_starts_with: self.name_starts_with.clone(),
        }
    }
}

/// A blank wish is met by every text, another only by the same text.
pub open spec fn is_or_blank(wanted: Seq<char>, text: Seq<char>) -> bool {
    wanted.len() == 0 || text == wanted
}

/// A blank prefix is met by every text, another only by a text that begins
/// with it.
pub open spec fn begins_or_blank(prefix: Seq<char>, text: Seq<char>) -> bool {
    prefix.len() == 0 || prefix.is_prefix_of(text)
}

/// An account passes a filter when it meets each of its four wishes.
pub open spec fn filter_matches(account: AccountView, filter: AccountFilterView) -> bool {
    &&& begins_or_blank(filter.login_starts_with, account.login)
    &&& begins_or_blank(filter.name_starts_with, account.name)
    &&& is_or_blank(filter.category_name, account.category)
    &&& is_or_blank(filter.client_name, account.client)
}

impl AccountFilterView {
    /// All four fields are blank.
    pub open spec fn is_blank(self) -> bool {
        &&& self.category_name.len() == 0
        &&& self.client_name.len() == 0
        &&& self.login_starts_with.len() == 0
        &&& self.name_starts_with.len() == 0
    }
}

/// Whether the account passes the filter.
pub fn account_matches_filters(account: &Account, filter_options: &AccountFilterOptions) -> (matches:
    bool)
    ensures
        matches == filter_matches(account@, filter_options@),
{
    let mut account_match = true;

    if !filter_options.login_starts_with.as_str().is_empty() {
        if !starts_with(account.login.as_str(), filter_options.login_starts_with.as_str()) {
            account_match = false;
        }
    }
    if !filter_options.name_starts_with.as_str().is_empty() {
        if !starts_with(account.name.as_str(), filter_options.name_starts_with.as_str()) {
            account_match = false;
        }
    }
    if !filter_options.category_name.as_str().is_empty() {
        if account.category != filter_options.category_name {
            account_match = false;
        }
    }
    if !filter_options.client_name.as_str().is_empty() {
        if account.client != filter_options.client_name {
            account_match = false;
        }
    }
    account_match
}

/// A filter whose four fields are blank lets every account pass.
pub proof fn lemma_blank_filter_matches_all(account: AccountView, filter: AccountFilterView)
    requires
        filter.is_blank(),
    ensures
        filter_matches(account, filter),
{
}

/// The characters of an option, none where the option is absent.
pub open spec fn text_or_blank(value: Option<&String>) -> Seq<char> {
    match value {
        Some(given) => given@,
        None => Seq::empty(),
    }
}

/// The text of an option, or the blank text where the option is absent.
pub fn get_string_or_blank(value: Option<&String>) -> (text: String)
    ensures
        text@ == text_or_blank(value),
{
    match value {
        Some(value_string) => value_string.clone(),
        None => String::new(),
    }
}

/// The filter that four options of the command line ask for.
pub fn get_account_filter_options(
    category_name: Option<&String>,
    client_name: Option<&String>,
    login_starts_with: Option<&String>,
    name_starts_with: Option<&String>,
) -> (filter: AccountFilterOptions)
    ensures
        filter@ == (AccountFilterView {
            category_name: text_or_blank(category_name),
            client_name: text_or_blank(client_name),
            login_starts_with: text_or_blank(login_starts_with),
            name_starts_with: text_or_blank(name_starts_with),
        }),
{
    AccountFilterOptions {
        category_name: get_string_or_blank(category_name),
        client_name: get_string_or_blank(client_name),
        login_starts_with: get_string_or_blank(login_starts_with),
        name_starts_with: get_string_or_blank(name_starts_with),
    }
}

} // verus!
