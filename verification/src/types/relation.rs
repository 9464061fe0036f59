use vstd::prelude::*;

use crate::types::base::RedmineId;

verus! {

/// Types of relation between issues.
#[derive(Debug, Clone, Copy, PartialEq, Eq, Structural)]
pub enum RelationType {
    /// Related to (`relates`).
    Relates,
    /// Duplicates (`duplicates`).
    Duplicates,
    /// Duplicated by (`duplicated`).
    Duplicated,
    /// Blocks (`blocks`).
    Blocks,
    /// Blocked by (`blocked`).
    Blocked,
    /// Precedes (`precedes`).
    Precedes,
    /// Follows (`follows`).
    Follows,
    /// Copied to (`copied_to`).
    CopiedTo,
    /// Copied from (`copied_from`).
    CopiedFrom,
}

/// A relation between two issues.
#[derive(Debug, Clone)]
pub struct Relation {
    /// ID of the relation.
    pub id: RedmineId,
    /// ID of the source issue.
    pub issue_id: Option<RedmineId>,
    /// ID of the target issue.
    pub issue_to_id: Option<RedmineId>,
    /// Type of the relation.
    pub relation_type: Option<RelationType>,
    /// Delay in days, for `precedes` and `follows` relations.
    pub delay: Option<u32>,
}

/// Payload that creates a relation.
#[derive(Debug, Clone)]
pub struct CreateRelationPayload {
    /// ID of the target issue (required).
    pub issue_to_id: RedmineId,
    /// Type of the relation (required).
    pub relation_type: RelationType,
    /// Delay in days, for `precedes` and `follows` relations.
    pub delay: Option<u32>,
}

} // verus!
