use vstd::prelude::*;

use crate::types::base::RedmineId;

verus! {

/// An issue category as the API returns it.
#[derive(Debug, Clone)]
pub struct IssueCategory {
    /// ID of the category.
    pub id: RedmineId,
    /// Name of the category.
    pub name: Option<String>,
    /// Project of the category.
    pub project: Option<super::base::IdName>,
    /// User the category's issues are assigned to.
    pub assigned_to: Option<super::base::IdName>,
}

/// Payload that creates a category.
#[derive(Debug, Clone)]
pub struct CreateIssueCategoryPayload {
    /// Name of the new category (required).
    pub name: String,
    /// ID of the user the category's issues are assigned to.
    pub assigned_to_id: Option<RedmineId>,
}

/// Payload that updates a category.
#[derive(Debug, Clone)]
pub struct UpdateIssueCategoryPayload {
    /// New name of the category.
    pub name: Option<String>,
    /// New ID of the assignee.
    pub assigned_to_id: Option<RedmineId>,
}

impl Default for UpdateIssueCategoryPayload {
    fn default() -> (r: Self)
        ensures
            r.name is None,
            r.assigned_to_id is None,
    {
        UpdateIssueCategoryPayload {
            name: None,
            assigned_to_id: None,
        }
    }
}

} // verus!
