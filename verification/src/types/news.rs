use vstd::prelude::*;

use crate::types::base::{RedmineId, IdName};

verus! {

/// A comment on a news item.
#[derive(Debug, Clone)]
pub struct NewsComment {
    /// ID of the comment.
    pub id: RedmineId,
    /// Author of the comment.
    pub author: Option<IdName>,
    /// Content of the comment.
    pub comments: Option<String>,
    /// Creation date of the comment.
    pub created_on: Option<String>,
}

/// A news item as the API returns it.
#[derive(Debug, Clone)]
pub struct News {
    /// ID of the news item.
    pub id: RedmineId,
    /// Project of the news item.
    pub project: Option<IdName>,
    /// Author of the news item.
    pub author: Option<IdName>,
    /// Title of the news item.
    pub title: Option<String>,
    /// Summary of the news item.
    pub summary: Option<String>,
    /// Full description of the news item.
    pub description: Option<String>,
    /// Creation date of the news item.
    pub created_on: Option<String>,
    /// Date of the news item's last update.
    pub updated_on: Option<String>,
    /// Comments on the news item.
    pub comments: Option<Vec<NewsComment>>,
    /// Attachments of the news item.
    pub attachments: Option<Vec<super::attachment::Attachment>>,
}

/// Payload that creates a news item.
#[derive(Debug, Clone)]
pub struct CreateNewsPayload {
    /// Title of the news item (required).
    pub title: String,
    /// Summary of the news item.
    pub summary: Option<String>,
    /// Full description of the news item.
    pub description: Option<String>,
}

/// Payload that updates a news item.
#[derive(Debug, Clone)]
pub struct UpdateNewsPayload {
    /// New title of the news item.
    pub title: Option<String>,
    /// New summary of the news item.
    pub summary: Option<String>,
    /// New description of the news item.
    pub description: Option<String>,
}

impl Default for UpdateNewsPayload {
    fn default() -> (r: Self)
        ensures
            r.title is None,
            r.summary is None,
            r.description is None,
    {
        UpdateNewsPayload {
            title: None,
            summary: None,
            description: None,
        }
    }
}

} // verus!
