use vstd::prelude::*;

use crate::types::base::{RedmineId, IdName};
use crate::json::JsonValue;

verus! {

/// A change to a field of the issue, within a journal.
#[derive(Debug, Clone)]
pub struct JournalDetail {
    /// Name of the changed property (such as `"status_id"` or `"subject"`).
    pub property: Option<String>,
    /// Readable name of the changed field.
    pub name: Option<String>,
    /// Previous value of the field.
    pub old_value: Option<JsonValue>,
    /// New value of the field.
    pub new_value: Option<JsonValue>,
}

/// A journal (history entry and notes) of an issue.
#[derive(Debug, Clone)]
pub struct Journal {
    /// ID of the journal.
    pub id: RedmineId,
    /// User who wrote the journal.
    pub user: Option<IdName>,
    /// Notes of the journal.
    pub notes: Option<String>,
    /// Creation date of the journal.
    pub created_on: Option<String>,
    /// Date of the journal's last update.
    pub updated_on: Option<String>,
    /// User who made the last update.
    pub updated_by: Option<IdName>,
    /// Whether the notes are private.
    pub private_notes: Option<bool>,
    /// Details of the changes made.
    pub details: Option<Vec<JournalDetail>>,
}

/// Payload that updates a journal.
#[derive(Debug, Clone)]
pub struct UpdateJournalPayload {
    /// New text of the notes (required).
    pub notes: String,
    /// Whether the notes are to be private.
    pub private_notes: Option<bool>,
}

} // verus!
