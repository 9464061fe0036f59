use vstd::prelude::*;

use crate::json::JsonValue;

verus! {

/// Numeric identifier of a Redmine record.
pub type RedmineId = u64;

/// An ID and a name, as references carry them (project, tracker, status, ...).
#[derive(Debug, Clone)]
pub struct IdName {
    /// ID of the resource.
    pub id: RedmineId,
    /// Name of the resource.
    pub name: String,
}

/// Value of a custom field.
#[derive(Debug, Clone)]
pub struct CustomFieldValue {
    /// ID of the custom field.
    pub id: RedmineId,
    /// Name of the custom field.
    pub name: Option<String>,
    /// Value of the custom field.
    pub value: Option<JsonValue>,
}

/// Payload that sets a custom field on creation or update.
#[derive(Debug, Clone)]
pub struct CustomFieldPayload {
    /// ID of the custom field.
    pub id: RedmineId,
    /// Value to set in the custom field.
    pub value: Option<JsonValue>,
}

/// Upload token that Redmine returns for an uploaded file.
#[derive(Debug, Clone)]
pub struct UploadToken {
    /// Upload token returned by Redmine.
    pub token: String,
}

/// Reference to an upload in creation and update payloads.
#[derive(Debug, Clone)]
pub struct UploadPayload {
    /// Upload token.
    pub token: String,
    /// Name of the uploaded file.
    pub filename: Option<String>,
    /// Content type (MIME) of the file.
    pub content_type: Option<String>,
    /// Optional description of the file.
    pub description: Option<String>,
}

/// An error answer of the API.
#[derive(Debug, Clone)]
pub struct ErrorResponse {
    /// Error messages returned by the API.
    pub errors: Vec<String>,
}

} // verus!
