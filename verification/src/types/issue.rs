use std::collections::HashMap;

use vstd::prelude::*;

use crate::types::base::RedmineId;

verus! {

/// A status an issue may move to.
#[derive(Debug, Clone)]
pub struct AllowedStatus {
    /// ID of the allowed status.
    pub id: RedmineId,
    /// Name of the allowed status.
    pub name: String,
}

/// Filters of an issue listing.
#[derive(Debug, Clone)]
pub struct IssueFilter {
    /// Filters by a given issue ID.
    pub issue_id: Option<RedmineId>,
    /// Filters by project ID.
    pub project_id: Option<RedmineId>,
    /// Filters by subproject (identifier).
    pub subproject_id: Option<String>,
    /// Filters by tracker ID.
    pub tracker_id: Option<RedmineId>,
    /// Filters by status (such as `"open"`, `"closed"`, `"*"`).
    pub status_id: Option<String>,
    /// Filters by assignee ID (`"me"` for the current user).
    pub assigned_to_id: Option<String>,
    /// Filters by parent issue ID.
    pub parent_id: Option<RedmineId>,
    /// Filters by priority ID.
    pub priority_id: Option<RedmineId>,
    /// Filters by category ID.
    pub category_id: Option<RedmineId>,
    /// Filters by target version ID (`fixed_version`).
    pub fixed_version_id: Option<RedmineId>,
    /// Filters by author ID.
    pub author_id: Option<RedmineId>,
    /// Filters by creation date.
    pub created_on: Option<String>,
    /// Filters by update date.
    pub updated_on: Option<String>,
    /// Sort field (such as `"created_on:desc"`).
    pub sort: Option<String>,
    /// ID of a saved query whose filters apply.
    pub query_id: Option<RedmineId>,
    /// Custom fields to filter by (such as `{ "cf_1": "value", "cf_5": "10" }`).
    /// Keys have the form `cf_{id}`.
    pub custom_fields: Option<HashMap<String, String>>,
}

impl Default for IssueFilter {
    fn default() -> (r: Self)
        ensures
            r.issue_id is None,
            r.project_id is None,
            r.subproject_id is None,
            r.tracker_id is None,
            r.status_id is None,
            r.assigned_to_id is None,
            r.parent_id is None,
            r.priority_id is None,
            r.category_id is None,
            r.fixed_version_id is None,
            r.author_id is None,
            r.created_on is None,
            r.updated_on is None,
            r.sort is None,
            r.query_id is None,
            r.custom_fields is None,
    {
        IssueFilter {
            issue_id: None,
            project_id: None,
            subproject_id: None,
            tracker_id: None,
            status_id: None,
            assigned_to_id: None,
            parent_id: None,
            priority_id: None,
            category_id: None,
            fixed_version_id: None,
            author_id: None,
            created_on: None,
            updated_on: None,
            sort: None,
            query_id: None,
            custom_fields: None,
        }
    }
}

} // verus!
