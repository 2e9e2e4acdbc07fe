//! The settings of a run.

use vstd::prelude::*;

verus! {

/// Everything that the tool is configured with.
#[derive(Debug, PartialEq, Eq)]
pub struct AppConfig {
    pub syspass_url: String,
    pub webdriver: WebDriverConfig,
    pub auth: AuthConfig,
    /// Whether a batch goes on after an item has failed.
    pub ignore_errors: bool,
    pub permissions: PermissionsConfig,
    pub delays: DelaysConfig,
    pub cache: CacheConfig,
}

/// Where the browser driver listens and how the browser is started.
#[derive(Debug, PartialEq, Eq)]
pub struct WebDriverConfig {
    pub url: String,
    pub args: Vec<String>,
}

/// The user that the tool logs in as.
#[derive(Debug, PartialEq, Eq)]
pub struct AuthConfig {
    pub login: String,
    pub password: String,
}

/// The permissions that every account of a manifest is given.
#[derive(Debug, PartialEq, Eq)]
pub struct PermissionsConfig {
    pub user: EntityPermissionsConfig,
    pub group: EntityPermissionsConfig,
    pub owner: String,
    pub main_group: String,
    pub private_account: bool,
    pub private_account_for_group: bool,
}

/// Who may view and who may edit.
#[derive(Debug, PartialEq, Eq)]
pub struct EntityPermissionsConfig {
    pub view: Vec<String>,
    pub edit: Vec<String>,
}

/// The number of inputs of the permissions form: users that view, users that
/// edit, groups that view, groups that edit.
pub const PERMISSION_INPUTS: usize = 4;

impl PermissionsConfig {
    /// The names that go into the input at `perm_input_index` of the
    /// permissions form.
    pub open spec fn input_at(&self, perm_input_index: usize) -> Option<Seq<String>> {
        if perm_input_index == 0 {
            Some(self.user.view@)
        } else if perm_input_index == 1 {
            Some(self.user.edit@)
        } else if perm_input_index == 2 {
            Some(self.group.view@)
        } else if perm_input_index == 3 {
            Some(self.group.edit@)
        } else {
            None
        }
    }

    /// The names that go into the input at `perm_input_index` of the
    /// permissions form, in the order of the form; none beyond its four
    /// inputs.
    pub fn permissions_for_input(&self, perm_input_index: usize) -> (names: Option<&Vec<String>>)
        ensures
            match names {
                Some(names) => self.input_at(perm_input_index) == Some(names@),
                None => self.input_at(perm_input_index) is None,
            },
            names is Some <==> perm_input_index < PERMISSION_INPUTS,
    {
        if perm_input_index == 0 {
            Some(&self.user.view)
        } else if perm_input_index == 1 {
            Some(&self.user.edit)
        } else if perm_input_index == 2 {
            Some(&self.group.view)
        } else if perm_input_index == 3 {
            Some(&self.group.edit)
        } else {
            None
        }
    }
}

/// How long to wait, in milliseconds, after each action on the page.
#[derive(Debug, PartialEq, Eq, Clone, Copy)]
pub struct DelaysConfig {
    /// After a successful login.
    pub after_login: u64,
    /// After the redirect to the index page.
    pub after_redirect_to_index: u64,
    /// After the redirect to the edit page.
    pub after_redirect_to_edit: u64,
    /// After a search.
    pub after_search: u64,
    /// After a menu has been opened.
    pub menu_open: u64,
}

/// After how many completed accounts the progress of a run is saved.
#[derive(Debug, PartialEq, Eq, Clone, Copy)]
pub struct CacheConfig {
    /// In a discovery run.
    pub save_accounts: u16,
    /// In a provisioning run.
    pub set_accounts: u16,
}

} // verus!
