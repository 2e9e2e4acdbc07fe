//! Accounts as they are observed in the credential manager.

use vstd::prelude::*;

verus! {

/// What is seen of one live account: its name, login, category and client.
#[derive(Debug, PartialEq, Eq)]
pub struct Account {
    pub name: String,
    pub login: String,
    pub category: String,
    pub client: String,
}

/// The four texts of an account, as sequences of characters.
pub struct AccountView {
    pub name: Seq<char>,
    pub login: Seq<char>,
    pub category: Seq<char>,
    pub client: Seq<char>,
}

impl View for Account {
    type V = AccountView;

    open spec fn view(&self) -> AccountView {
        AccountView {
            name: self.name@,
            login: self.login@,
            category: self.category@,
            client: self.client@,
        }
    }
}

impl DeepView for Account {
    type V = AccountView;

    open spec fn deep_view(&self) -> AccountView {
        self@
    }
}

impl Clone for Account {
    fn clone(&self) -> (copy: Self)
        ensures
            copy == *self,
    {
        Account {
            name: self.name.clone(),
            login: self.login.clone(),
            category: self.category.clone(),
            client: self.client.clone(),
        }
    }
}

impl Account {
    /// Structural equality: all four fields hold the same text.
    pub fn same_as(&self, other: &Account) -> (same: bool)
        ensures
            same == (self@ == other@),
    {
        self.login == other.login && self.name == other.name && self.category == other.category
            && self.client == other.client
    }
}

/// A copy of a list of accounts.
pub fn copy_accounts(accounts: &Vec<Account>) -> (copy: Vec<Account>)
    ensures
        copy.deep_view() == accounts.deep_view(),
{
    let mut copy: Vec<Account> = Vec::new();
    let mut i: usize = 0;
    while i < accounts.len()
        invariant
            i <= accounts.len(),
            copy.len() == i,
            forall|k: int| 0 <= k < i ==> copy[k]@ == accounts[k]@,
        decreases accounts.len() - i,
    {
        copy.push(accounts[i].clone());
        i = i + 1;
    }
    assert(copy.deep_view() =~= accounts.deep_view());
    copy
}

} // verus!
