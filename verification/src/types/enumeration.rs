use vstd::prelude::*;

use crate::types::base::RedmineId;

verus! {

/// Issue priority.
#[derive(Debug, Clone)]
pub struct IssuePriority {
    /// ID of the priority.
    pub id: RedmineId,
    /// Name of the priority (such as `"Low"`, `"Normal"`, `"High"`).
    pub name: Option<String>,
    /// Whether this is the default priority.
    pub is_default: Option<bool>,
    /// Whether the priority is active.
    pub active: Option<bool>,
    /// Position of the priority in the sort order.
    pub position: Option<u32>,
}

/// Time-entry activity.
#[derive(Debug, Clone)]
pub struct TimeEntryActivity {
    /// ID of the activity.
    pub id: RedmineId,
    /// Name of the activity (such as `"Development"` or `"Meeting"`).
    pub name: Option<String>,
    /// Whether this is the default activity.
    pub is_default: Option<bool>,
    /// Whether the activity is active.
    pub active: Option<bool>,
    /// Position of the activity in the sort order.
    pub position: Option<u32>,
}

/// Document category.
#[derive(Debug, Clone)]
pub struct DocumentCategory {
    /// ID of the category.
    pub id: RedmineId,
    /// Name of the category (such as `"Technical documentation"` or `"Manual"`).
    pub name: Option<String>,
    /// Whether this is the default category.
    pub is_default: Option<bool>,
    /// Whether the category is active.
    pub active: Option<bool>,
    /// Position of the category in the sort order.
    pub position: Option<u32>,
}

} // verus!
