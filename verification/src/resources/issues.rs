//! Issues: CRUD, watchers, associations.

use vstd::prelude::*;

use crate::http::client::{PathSegment, include_query, segment_texts};
use crate::json::JsonValue;
use crate::resources::endpoint::{
    Endpoint,
    RequestBody,
    RequestKind,
    endpoint,
    filter_pairs,
    include_pairs,
    segment_name,
};
use crate::text::decimal;
use crate::types::RedmineId;
use crate::utils::query::filter_to_query;
use crate::utils::query::pairs_view;

verus! {

/// Every issue that matches the filter, given as the document it serialises to.
pub fn list(filter: Option<&JsonValue>) -> (e: Endpoint)
    ensures
        e.describes(
            seq!["issues"@],
            filter_pairs(filter),
            "issues"@,
            "issues.list"@,
        ),
        e.kind == RequestKind::GetAll,
        e.body == RequestBody::Absent,
{
    let mut segments: Vec<PathSegment> = Vec::new();
    segments.push(segment_name("issues"));
    assert(segment_texts(segments@) =~= seq!["issues"@]);
    let query: Vec<(String, String)> = filter_to_query(filter);
    assert(pairs_view(query@) =~= filter_pairs(filter));
    endpoint(segments, query, "issues", "issues.list", RequestKind::GetAll, RequestBody::Absent)
}

/// The issue with this ID.
pub fn get(id: RedmineId) -> (e: Endpoint)
    ensures
        e.describes(
            seq!["issues"@, decimal(id as nat)],
            Seq::empty(),
            "issue"@,
            "issues.get"@,
        ),
        e.kind == RequestKind::GetOne,
        e.body == RequestBody::Absent,
{
    let mut segments: Vec<PathSegment> = Vec::new();
    segments.push(segment_name("issues"));
    segments.push(PathSegment::Id(id));
    assert(segment_texts(segments@) =~= seq!["issues"@, decimal(id as nat)]);
    let query: Vec<(String, String)> = Vec::new();
    assert(pairs_view(query@) =~= Seq::empty());
    endpoint(segments, query, "issue", "issues.get", RequestKind::GetOne, RequestBody::Absent)
}

/// The issue with this ID, with the associations named in `includes`.
pub fn get_with_includes(id: RedmineId, includes: &[&str]) -> (e: Endpoint)
    ensures
        e.describes(
            seq!["issues"@, decimal(id as nat)],
            include_pairs(includes@.map_values(|s: &str| s@)),
            "issue"@,
            "issues.get_with_includes"@,
        ),
        e.kind == RequestKind::GetOne,
        e.body == RequestBody::Absent,
{
    let mut segments: Vec<PathSegment> = Vec::new();
    segments.push(segment_name("issues"));
    segments.push(PathSegment::Id(id));
    assert(segment_texts(segments@) =~= seq!["issues"@, decimal(id as nat)]);
    let query: Vec<(String, String)> = include_query(includes);
    assert(pairs_view(query@) =~= include_pairs(includes@.map_values(|s: &str| s@)));
    endpoint(
        segments,
        query,
        "issue",
        "issues.get_with_includes",
        RequestKind::GetOne,
        RequestBody::Absent,
    )
}

/// The issue with this ID and the statuses it may move to.
pub fn get_allowed_statuses(id: RedmineId) -> (e: Endpoint)
    ensures
        e.describes(
            seq!["issues"@, decimal(id as nat)],
            include_pairs(seq!["allowed_statuses"@]),
            "issue"@,
            "issues.get_allowed_statuses"@,
        ),
        e.kind == RequestKind::GetOne,
        e.body == RequestBody::Absent,
{
    let mut segments: Vec<PathSegment> = Vec::new();
    segments.push(segment_name("issues"));
    segments.push(PathSegment::Id(id));
    assert(segment_texts(segments@) =~= seq!["issues"@, decimal(id as nat)]);
    let mut query: Vec<(String, String)> = Vec::new();
    query.push(("include".to_owned(), "allowed_statuses".to_owned()));
    assert(pairs_view(query@) =~= include_pairs(seq!["allowed_statuses"@]));
    endpoint(
        segments,
        query,
        "issue",
        "issues.get_allowed_statuses",
        RequestKind::GetOne,
        RequestBody::Absent,
    )
}

/// Creates an issue.
pub fn create() -> (e: Endpoint)
    ensures
        e.describes(
            seq!["issues"@],
            Seq::empty(),
            "issue"@,
            "issues.create"@,
        ),
        e.kind == RequestKind::PostOne,
        e.body.wraps("issue"@),
{
    let mut segments: Vec<PathSegment> = Vec::new();
    segments.push(segment_name("issues"));
    assert(segment_texts(segments@) =~= seq!["issues"@]);
    let query: Vec<(String, String)> = Vec::new();
    assert(pairs_view(query@) =~= Seq::empty());
    endpoint(
        segments,
        query,
        "issue",
        "issues.create",
        RequestKind::PostOne,
        RequestBody::Wrapped("issue".to_owned()),
    )
}

/// Updates an issue.
pub fn update(id: RedmineId) -> (e: Endpoint)
    ensures
        e.describes(
            seq!["issues"@, decimal(id as nat)],
            Seq::empty(),
            ""@,
            "issues.update"@,
        ),
        e.kind == RequestKind::Put,
        e.body.wraps("issue"@),
{
    let mut segments: Vec<PathSegment> = Vec::new();
    segments.push(segment_name("issues"));
    segments.push(PathSegment::Id(id));
    assert(segment_texts(segments@) =~= seq!["issues"@, decimal(id as nat)]);
    let query: Vec<(String, String)> = Vec::new();
    assert(pairs_view(query@) =~= Seq::empty());
    endpoint(
        segments,
        query,
        "",
        "issues.update",
        RequestKind::Put,
        RequestBody::Wrapped("issue".to_owned()),
    )
}

/// Deletes an issue.
pub fn delete(id: RedmineId) -> (e: Endpoint)
    ensures
        e.describes(
            seq!["issues"@, decimal(id as nat)],
            Seq::empty(),
            ""@,
            "issues.delete"@,
        ),
        e.kind == RequestKind::Delete,
        e.body == RequestBody::Absent,
{
    let mut segments: Vec<PathSegment> = Vec::new();
    segments.push(segment_name("issues"));
    segments.push(PathSegment::Id(id));
    assert(segment_texts(segments@) =~= seq!["issues"@, decimal(id as nat)]);
    let query: Vec<(String, String)> = Vec::new();
    assert(pairs_view(query@) =~= Seq::empty());
    endpoint(segments, query, "", "issues.delete", RequestKind::Delete, RequestBody::Absent)
}

/// Adds a watcher to an issue.
pub fn add_watcher(issue_id: RedmineId, user_id: RedmineId) -> (e: Endpoint)
    ensures
        e.describes(
            seq!["issues"@, decimal(issue_id as nat), "watchers"@],
            Seq::empty(),
            ""@,
            "issues.add_watcher"@,
        ),
        e.kind == RequestKind::Post,
        e.body == RequestBody::UserId(user_id),
{
    let mut segments: Vec<PathSegment> = Vec::new();
    segments.push(segment_name("issues"));
    segments.push(PathSegment::Id(issue_id));
    segments.push(segment_name("watchers"));
    assert(segment_texts(segments@) =~= seq!["issues"@, decimal(issue_id as nat), "watchers"@]);
    let query: Vec<(String, String)> = Vec::new();
    assert(pairs_view(query@) =~= Seq::empty());
    endpoint(
        segments,
        query,
        "",
        "issues.add_watcher",
        RequestKind::Post,
        RequestBody::UserId(user_id),
    )
}

/// Removes a watcher from an issue.
pub fn remove_watcher(issue_id: RedmineId, user_id: RedmineId) -> (e: Endpoint)
    ensures
        e.describes(
            seq!["issues"@, decimal(issue_id as nat), "watchers"@, decimal(user_id as nat)],
            Seq::empty(),
            ""@,
            "issues.remove_watcher"@,
        ),
        e.kind == RequestKind::Delete,
        e.body == RequestBody::Absent,
{
    let mut segments: Vec<PathSegment> = Vec::new();
    segments.push(segment_name("issues"));
    segments.push(PathSegment::Id(issue_id));
    segments.push(segment_name("watchers"));
    segments.push(PathSegment::Id(user_id));
    assert(segment_texts(segments@) =~= seq![
        "issues"@,
        decimal(issue_id as nat),
        "watchers"@,
        decimal(user_id as nat),
    ]);
    let query: Vec<(String, String)> = Vec::new();
    assert(pairs_view(query@) =~= Seq::empty());
    endpoint(segments, query, "", "issues.remove_watcher", RequestKind::Delete, RequestBody::Absent)
}

} // verus!
