use vstd::prelude::*;

use crate::types::base::RedmineId;

verus! {

/// A role as the API returns it.
#[derive(Debug, Clone)]
pub struct Role {
    /// ID of the role.
    pub id: RedmineId,
    /// Name of the role (such as `"Manager"`, `"Developer"`, `"Reporter"`).
    pub name: Option<String>,
    /// Position of the role in the sort order.
    pub position: Option<u32>,
    /// Permissions of this role.
    pub permissions: Option<Vec<String>>,
    /// Whether the role was inherited from a group.
    pub inherited: Option<bool>,
}

} // verus!
