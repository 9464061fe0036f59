use vstd::prelude::*;

use crate::types::base::RedmineId;

verus! {

/// Filters of a time-entry listing.
#[derive(Debug, Clone)]
pub struct TimeEntryFilter {
    /// Filters by user ID.
    pub user_id: Option<RedmineId>,
    /// Filters by project ID.
    pub project_id: Option<RedmineId>,
    /// Filters by issue ID.
    pub issue_id: Option<RedmineId>,
    /// Filters by the date the time was spent (YYYY-MM-DD).
    pub spent_on: Option<String>,
    /// Start of the period to filter by (YYYY-MM-DD).
    pub from: Option<String>,
    /// End of the period to filter by (YYYY-MM-DD).
    pub to: Option<String>,
}

impl Default for TimeEntryFilter {
    fn default() -> (r: Self)
        ensures
            r.user_id is None,
            r.project_id is None,
            r.issue_id is None,
            r.spent_on is None,
            r.from is None,
            r.to is None,
    {
        TimeEntryFilter {
            user_id: None,
            project_id: None,
            issue_id: None,
            spent_on: None,
            from: None,
            to: None,
        }
    }
}

} // verus!
