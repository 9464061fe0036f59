use vstd::prelude::*;

use crate::types::base::RedmineId;

verus! {

/// A saved query of Redmine.
#[derive(Debug, Clone)]
pub struct Query {
    /// ID of the query.
    pub id: RedmineId,
    /// Name of the saved query.
    pub name: Option<String>,
    /// Whether the query is public (visible to every user).
    pub is_public: Option<bool>,
    /// ID of the project of the query (for a project's own query).
    pub project_id: Option<RedmineId>,
}

} // verus!
