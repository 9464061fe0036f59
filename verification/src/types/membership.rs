use vstd::prelude::*;

use crate::types::base::{RedmineId, IdName};

verus! {

/// Membership of a user or group in a project.
#[derive(Debug, Clone)]
pub struct Membership {
    /// ID of the membership.
    pub id: RedmineId,
    /// Project the user or group is a member of.
    pub project: Option<IdName>,
    /// The user, for a user's membership.
    pub user: Option<IdName>,
    /// The group, for a group's membership.
    pub group: Option<IdName>,
    /// Roles of the user or group in the project.
    pub roles: Option<Vec<IdName>>,
}

/// Payload that creates a membership.
#[derive(Debug, Clone)]
pub struct CreateMembershipPayload {
    /// ID of the user to add (optional when `group_id` is given).
    pub user_id: Option<RedmineId>,
    /// ID of the group to add (optional when `user_id` is given).
    pub group_id: Option<RedmineId>,
    /// IDs of the roles to give.
    pub role_ids: Vec<RedmineId>,
}

/// Payload that updates a membership.
#[derive(Debug, Clone)]
pub struct UpdateMembershipPayload {
    /// New IDs of the roles to give.
    pub role_ids: Vec<RedmineId>,
}

} // verus!
