use vstd::prelude::*;

use crate::types::base::RedmineId;

verus! {

/// A tracker (issue type) as the API returns it.
#[derive(Debug, Clone)]
pub struct Tracker {
    /// ID of the tracker.
    pub id: RedmineId,
    /// Name of the tracker (such as `"Bug"`, `"Feature"`, `"Support"`).
    pub name: Option<String>,
    /// Default status of this tracker.
    pub default_status: Option<super::base::IdName>,
    /// Description of the tracker.
    pub description: Option<String>,
}

} // verus!
