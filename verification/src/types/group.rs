use vstd::prelude::*;

use crate::types::base::{RedmineId, IdName};

verus! {

/// A group as the API returns it.
#[derive(Debug, Clone)]
pub struct Group {
    /// ID of the group.
    pub id: RedmineId,
    /// Name of the group.
    pub name: Option<String>,
    /// Users of the group.
    pub users: Option<Vec<IdName>>,
    /// Memberships of the group in projects.
    pub memberships: Option<Vec<super::membership::Membership>>,
}

/// Payload that creates a group.
#[derive(Debug, Clone)]
pub struct CreateGroupPayload {
    /// Name of the new group (required).
    pub name: String,
    /// IDs of the users to add to the group.
    pub user_ids: Option<Vec<RedmineId>>,
}

/// Payload that updates a group.
#[derive(Debug, Clone)]
pub struct UpdateGroupPayload {
    /// New name of the group.
    pub name: Option<String>,
    /// New list of the IDs of the group's users.
    pub user_ids: Option<Vec<RedmineId>>,
}

impl Default for UpdateGroupPayload {
    fn default() -> (r: Self)
        ensures
            r.name is None,
            r.user_ids is None,
    {
        UpdateGroupPayload {
            name: None,
            user_ids: None,
        }
    }
}

} // verus!
