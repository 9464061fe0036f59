use vstd::prelude::*;

use crate::types::base::{RedmineId, IdName};

verus! {

/// An attachment as the API returns it.
#[derive(Debug, Clone)]
pub struct Attachment {
    /// ID of the attachment.
    pub id: RedmineId,
    /// Name of the attached file.
    pub filename: Option<String>,
    /// Size of the file in bytes.
    pub filesize: Option<u64>,
    /// Content type (MIME type) of the file.
    pub content_type: Option<String>,
    /// Description of the attachment.
    pub description: Option<String>,
    /// URL of the attachment's content.
    pub content_url: Option<String>,
    /// Author of the attachment.
    pub author: Option<IdName>,
    /// Creation date of the attachment.
    pub created_on: Option<String>,
    /// Digest of the file.
    pub digest: Option<String>,
    /// Download URL of the attachment.
    pub download_url: Option<String>,
}

} // verus!
