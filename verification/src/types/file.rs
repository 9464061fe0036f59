use vstd::prelude::*;

use crate::types::base::{RedmineId, IdName};

verus! {

/// A file attached to a project.
#[derive(Debug, Clone)]
pub struct File {
    /// ID of the file.
    pub id: RedmineId,
    /// Original name of the file.
    pub filename: Option<String>,
    /// Size of the file in bytes.
    pub filesize: Option<u64>,
    /// MIME type of the file's content.
    pub content_type: Option<String>,
    /// Description of the file.
    pub description: Option<String>,
    /// URL of the file's content.
    pub content_url: Option<String>,
    /// Author who uploaded the file.
    pub author: Option<IdName>,
    /// Creation date of the file.
    pub created_on: Option<String>,
    /// Digest of the file.
    pub digest: Option<String>,
    /// Download URL of the file.
    pub download_url: Option<String>,
}

/// Payload that attaches a file to a project.
#[derive(Debug, Clone)]
pub struct CreateFilePayload {
    /// Token of the file's earlier upload (required).
    pub token: String,
    /// Name of the file (required).
    pub filename: String,
    /// MIME type of the file.
    pub content_type: Option<String>,
    /// Description of the file.
    pub description: Option<String>,
    /// ID of the version the file is attached to.
    pub version_id: Option<RedmineId>,
}

} // verus!
