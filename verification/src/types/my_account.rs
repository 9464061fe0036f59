use vstd::prelude::*;

use crate::types::base::RedmineId;

verus! {

/// Account of the authenticated user.
#[derive(Debug, Clone)]
pub struct MyAccount {
    /// ID of the user.
    pub id: RedmineId,
    /// Login of the user.
    pub login: Option<String>,
    /// First name of the user.
    pub firstname: Option<String>,
    /// Last name of the user.
    pub lastname: Option<String>,
    /// E-mail address of the user.
    pub mail: Option<String>,
    /// Whether the user has administrator rights.
    pub admin: Option<bool>,
    /// Creation date of the account.
    pub created_on: Option<String>,
    /// Date of the account's last update.
    pub updated_on: Option<String>,
    /// Date of the user's last login.
    pub last_login_on: Option<String>,
    /// API key of the user, for authentication.
    pub api_key: Option<String>,
    /// Memberships of the user in projects.
    pub memberships: Option<Vec<super::membership::Membership>>,
}

} // verus!
