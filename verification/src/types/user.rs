use vstd::prelude::*;

use crate::types::base::{RedmineId, IdName};

verus! {

/// Status of a user in Redmine.
#[derive(Debug, Clone, Copy, PartialEq, Eq, Structural)]
pub enum UserStatus {
    /// Active user.
    Active,
    /// Registered user (awaiting activation).
    Registered,
    /// Locked user.
    Locked,
}

/// Filters of a user listing.
#[derive(Debug, Clone)]
pub struct UserFilter {
    /// Filters by user status.
    pub status: Option<UserStatus>,
    /// Filters by name (login, first name or last name).
    pub name: Option<String>,
    /// Filters by group ID.
    pub group_id: Option<RedmineId>,
}

impl Default for UserFilter {
    fn default() -> (r: Self)
        ensures
            r.status is None,
            r.name is None,
            r.group_id is None,
    {
        UserFilter {
            status: None,
            name: None,
            group_id: None,
        }
    }
}

/// A user as the API returns it.
#[derive(Debug, Clone)]
pub struct User {
    /// ID of the user.
    pub id: RedmineId,
    /// Login of the user.
    pub login: Option<String>,
    /// First name of the user.
    pub firstname: Option<String>,
    /// Last name of the user.
    pub lastname: Option<String>,
    /// E-mail address of the user.
    pub mail: Option<String>,
    /// Whether the user is an administrator.
    pub admin: Option<bool>,
    /// Current status of the user.
    pub status: Option<UserStatus>,
    /// API key of the user.
    pub api_key: Option<String>,
    /// Creation date of the user.
    pub created_on: Option<String>,
    /// Date of the user's last update.
    pub updated_on: Option<String>,
    /// Date of the user's last login.
    pub last_login_on: Option<String>,
    /// Memberships of the user in projects.
    pub memberships: Option<Vec<MembershipSummary>>,
    /// Groups the user belongs to.
    pub groups: Option<Vec<IdName>>,
}

/// Summary of a user's membership in a project.
#[derive(Debug, Clone)]
pub struct MembershipSummary {
    /// ID of the membership.
    pub id: RedmineId,
    /// Project the user is a member of.
    pub project: IdName,
    /// Roles of the user in the project.
    pub roles: Vec<IdName>,
}

/// Payload that creates a user.
#[derive(Debug, Clone)]
pub struct CreateUserPayload {
    /// Login of the user (required).
    pub login: String,
    /// First name of the user (required).
    pub firstname: String,
    /// Last name of the user (required).
    pub lastname: String,
    /// E-mail address of the user (required).
    pub mail: String,
    /// Password of the user; left out for external authentication.
    pub password: Option<String>,
    /// ID of an external authentication source (LDAP, ...).
    pub auth_source_id: Option<RedmineId>,
    /// Whether the user must change the password at the next login.
    pub must_change_passwd: Option<bool>,
    /// Whether the user is an administrator.
    pub admin: Option<bool>,
    /// Status of the user (active, registered, locked).
    pub status: Option<UserStatus>,
    /// Values of the user's custom fields.
    pub custom_fields: Option<Vec<super::base::CustomFieldPayload>>,
}

/// Payload that updates a user.
///
/// Every field is optional: only the fields given are changed.
#[derive(Debug, Clone)]
pub struct UpdateUserPayload {
    /// New login.
    pub login: Option<String>,
    /// New first name.
    pub firstname: Option<String>,
    /// New last name.
    pub lastname: Option<String>,
    /// New e-mail address.
    pub mail: Option<String>,
    /// New password.
    pub password: Option<String>,
    /// New ID of the external authentication source.
    pub auth_source_id: Option<RedmineId>,
    /// Whether the user must change the password at the next login.
    pub must_change_passwd: Option<bool>,
    /// Grants or removes administrator rights.
    pub admin: Option<bool>,
    /// New status of the user.
    pub status: Option<UserStatus>,
    /// New values of custom fields.
    pub custom_fields: Option<Vec<super::base::CustomFieldPayload>>,
}

impl Default for UpdateUserPayload {
    fn default() -> (r: Self)
        ensures
            r.login is None,
            r.firstname is None,
            r.lastname is None,
            r.mail is None,
            r.password is None,
            r.auth_source_id is None,
            r.must_change_passwd is None,
            r.admin is None,
            r.status is None,
            r.custom_fields is None,
    {
        UpdateUserPayload {
            login: None,
            firstname: None,
            lastname: None,
            mail: None,
            password: None,
            auth_source_id: None,
            must_change_passwd: None,
            admin: None,
            status: None,
            custom_fields: None,
        }
    }
}

} // verus!
