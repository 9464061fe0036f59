use vstd::prelude::*;

use crate::types::base::RedmineId;

verus! {

/// An issue status as the API returns it.
#[derive(Debug, Clone)]
pub struct IssueStatus {
    /// ID of the status.
    pub id: RedmineId,
    /// Name of the status (such as `"New"`, `"In progress"`, `"Closed"`).
    pub name: Option<String>,
    /// Whether this status closes an issue.
    pub is_closed: Option<bool>,
    /// Whether this is the default status of new issues.
    pub is_default: Option<bool>,
    /// Position of the status in the sort order.
    pub position: Option<u32>,
}

} // verus!
