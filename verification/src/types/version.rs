use vstd::prelude::*;

use crate::types::base::{RedmineId, IdName};

verus! {

/// Status of a version.
#[derive(Debug, Clone, Copy, PartialEq, Eq, Structural)]
pub enum VersionStatus {
    /// Open version.
    Open,
    /// Locked version: it cannot be changed.
    Locked,
    /// Closed version.
    Closed,
}

/// How a version is shared.
#[derive(Debug, Clone, Copy, PartialEq, Eq, Structural)]
pub enum VersionSharing {
    /// Not shared.
    NotShared,
    /// Shared with subprojects.
    Descendants,
    /// Shared with the project hierarchy.
    Hierarchy,
    /// Shared with the whole project tree.
    Tree,
    /// Shared with every project.
    System,
}

/// A version as the API returns it.
#[derive(Debug, Clone)]
pub struct Version {
    /// ID of the version.
    pub id: RedmineId,
    /// Project of the version.
    pub project: Option<IdName>,
    /// Name of the version.
    pub name: Option<String>,
    /// Detailed description of the version.
    pub description: Option<String>,
    /// Current status of the version.
    pub status: Option<VersionStatus>,
    /// How the version is shared.
    pub sharing: Option<VersionSharing>,
    /// Due date of the version (ISO 8601).
    pub due_date: Option<String>,
    /// Creation date of the version (ISO 8601).
    pub created_on: Option<String>,
    /// Date of the version's last update (ISO 8601).
    pub updated_on: Option<String>,
    /// Title of the version's wiki page.
    pub wiki_page_title: Option<String>,
}

/// Payload that creates a version.
#[derive(Debug, Clone)]
pub struct CreateVersionPayload {
    /// Name of the version (required).
    pub name: String,
    /// Detailed description of the version.
    pub description: Option<String>,
    /// Initial status of the version.
    pub status: Option<VersionStatus>,
    /// How the version is shared.
    pub sharing: Option<VersionSharing>,
    /// Due date of the version (ISO 8601).
    pub due_date: Option<String>,
}

/// Payload that updates a version.
#[derive(Debug, Clone)]
pub struct UpdateVersionPayload {
    /// New name of the version.
    pub name: Option<String>,
    /// New description of the version.
    pub description: Option<String>,
    /// New status of the version.
    pub status: Option<VersionStatus>,
    /// New sharing.
    pub sharing: Option<VersionSharing>,
    /// New due date (ISO 8601).
    pub due_date: Option<String>,
}

impl Default for UpdateVersionPayload {
    fn default() -> (r: Self)
        ensures
            r.name is None,
            r.description is None,
            r.status is None,
            r.sharing is None,
            r.due_date is None,
    {
        UpdateVersionPayload {
            name: None,
            description: None,
            status: None,
            sharing: None,
            due_date: None,
        }
    }
}

} // verus!
