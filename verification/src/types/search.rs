use vstd::prelude::*;

verus! {

/// A result of a full-text search.
#[derive(Debug, Clone)]
pub struct SearchResult {
    /// ID of the result.
    pub id: u64,
    /// Title of the result.
    pub title: Option<String>,
    /// Type of the result (issue, project, news, ...).
    pub result_type: Option<String>,
    /// URL of the result.
    pub url: Option<String>,
    /// Description of the result.
    pub description: Option<String>,
    /// Date and time of the result.
    pub datetime: Option<String>,
}

/// Filters of a full-text search.
#[derive(Debug, Clone)]
pub struct SearchFilter {
    /// Search terms (required).
    pub query: String,
    /// Offset of the results, for pagination.
    pub offset: Option<u32>,
    /// Maximum number of results per page.
    pub limit: Option<u32>,
    /// Scope of the search (such as `"all"` or `"my_project"`).
    pub scope: Option<String>,
    /// When true, matches all the words (not any of them).
    pub all_words: Option<bool>,
    /// When true, searches titles only.
    pub titles_only: Option<bool>,
    /// Include issues in the results.
    pub issues: Option<bool>,
    /// Include news in the results.
    pub news: Option<bool>,
    /// Include documents in the results.
    pub documents: Option<bool>,
    /// Include changesets (commits) in the results.
    pub changesets: Option<bool>,
    /// Include wiki pages in the results.
    pub wiki_pages: Option<bool>,
    /// Include forum messages in the results.
    pub messages: Option<bool>,
    /// Include projects in the results.
    pub projects: Option<bool>,
    /// When true, searches open issues only.
    pub open_issues: Option<bool>,
    /// Filter on attachments (file name or description).
    pub attachments: Option<String>,
}

} // verus!
