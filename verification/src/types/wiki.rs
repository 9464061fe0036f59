use vstd::prelude::*;

use crate::types::base::IdName;

verus! {

/// Reference to a parent page in the wiki hierarchy (its title only).
#[derive(Debug, Clone)]
pub struct WikiParent {
    /// Title of the parent page.
    pub title: String,
}

/// Summary of a wiki page (in a listing).
#[derive(Debug, Clone)]
pub struct WikiPageSummary {
    /// Title of the wiki page.
    pub title: String,
    /// Parent page in the wiki hierarchy.
    pub parent: Option<WikiParent>,
    /// Number of the page's current version.
    pub version: u32,
    /// Creation date of the page.
    pub created_on: Option<String>,
    /// Date of the page's last update.
    pub updated_on: Option<String>,
}

/// A full wiki page.
#[derive(Debug, Clone)]
pub struct WikiPage {
    /// Title of the wiki page.
    pub title: Option<String>,
    /// Parent page in the wiki hierarchy.
    pub parent: Option<WikiParent>,
    /// Text of the page, in wiki markup.
    pub text: Option<String>,
    /// Number of the page's current version.
    pub version: Option<u32>,
    /// Author of the last update.
    pub author: Option<IdName>,
    /// Comment attached to the version.
    pub comments: Option<String>,
    /// Creation date of the page.
    pub created_on: Option<String>,
    /// Date of the page's last update.
    pub updated_on: Option<String>,
    /// Attachments of the page.
    pub attachments: Option<Vec<super::attachment::Attachment>>,
}

/// Payload that creates or updates a wiki page.
#[derive(Debug, Clone)]
pub struct CreateWikiPagePayload {
    /// Content of the page, in wiki markup (required).
    pub text: String,
    /// Optional comment on the change.
    pub comments: Option<String>,
    /// Title of the parent page (optional, for the hierarchy).
    pub parent_title: Option<String>,
}

} // verus!
