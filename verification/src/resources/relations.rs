//! Issue relations: CRUD.

use vstd::prelude::*;

use crate::http::client::{PathSegment, segment_texts};
use crate::http::pagination::{paginated_pairs, paginated_query};
use crate::resources::endpoint::{Endpoint, RequestBody, RequestKind, endpoint, segment_name};
use crate::text::decimal;
use crate::types::RedmineId;
use crate::utils::query::pairs_view;

verus! {

/// The relation with this ID.
pub fn get(id: RedmineId) -> (e: Endpoint)
    ensures
        e.describes(
            seq!["relations"@, decimal(id as nat)],
            Seq::empty(),
            "relation"@,
            "relations.get"@,
        ),
        e.kind == RequestKind::GetOne,
        e.body == RequestBody::Absent,
{
    let mut segments: Vec<PathSegment> = Vec::new();
    segments.push(segment_name("relations"));
    segments.push(PathSegment::Id(id));
    assert(segment_texts(segments@) =~= seq!["relations"@, decimal(id as nat)]);
    let query: Vec<(String, String)> = Vec::new();
    assert(pairs_view(query@) =~= Seq::empty());
    endpoint(segments, query, "relation", "relations.get", RequestKind::GetOne, RequestBody::Absent)
}

/// The relations of an issue. One page, of the default size.
pub fn list_by_issue(issue_id: RedmineId) -> (e: Endpoint)
    ensures
        e.describes(
            seq!["issues"@, decimal(issue_id as nat), "relations"@],
            paginated_pairs(Seq::empty(), None),
            "relations"@,
            "relations.list_by_issue"@,
        ),
        e.kind == RequestKind::GetPage,
        e.body == RequestBody::Absent,
{
    let mut segments: Vec<PathSegment> = Vec::new();
    segments.push(segment_name("issues"));
    segments.push(PathSegment::Id(issue_id));
    segments.push(segment_name("relations"));
    assert(segment_texts(segments@) =~= seq!["issues"@, decimal(issue_id as nat), "relations"@]);
    let base: Vec<(String, String)> = Vec::new();
    assert(pairs_view(base@) =~= Seq::<(Seq<char>, Seq<char>)>::empty());
    let query: Vec<(String, String)> = paginated_query(&base, None);
    endpoint(
        segments,
        query,
        "relations",
        "relations.list_by_issue",
        RequestKind::GetPage,
        RequestBody::Absent,
    )
}

/// Creates a relation from an issue.
pub fn create_on_issue(issue_id: RedmineId) -> (e: Endpoint)
    ensures
        e.describes(
            seq!["issues"@, decimal(issue_id as nat), "relations"@],
            Seq::empty(),
            "relation"@,
            "relations.create_on_issue"@,
        ),
        e.kind == RequestKind::PostOne,
        e.body.wraps("relation"@),
{
    let mut segments: Vec<PathSegment> = Vec::new();
    segments.push(segment_name("issues"));
    segments.push(PathSegment::Id(issue_id));
    segments.push(segment_name("relations"));
    assert(segment_texts(segments@) =~= seq!["issues"@, decimal(issue_id as nat), "relations"@]);
    let query: Vec<(String, String)> = Vec::new();
    assert(pairs_view(query@) =~= Seq::empty());
    endpoint(
        segments,
        query,
        "relation",
        "relations.create_on_issue",
        RequestKind::PostOne,
        RequestBody::Wrapped("relation".to_owned()),
    )
}

/// Deletes a relation.
pub fn delete(id: RedmineId) -> (e: Endpoint)
    ensures
        e.describes(
            seq!["relations"@, decimal(id as nat)],
            Seq::empty(),
            ""@,
            "relations.delete"@,
        ),
        e.kind == RequestKind::Delete,
        e.body == RequestBody::Absent,
{
    let mut segments: Vec<PathSegment> = Vec::new();
    segments.push(segment_name("relations"));
    segments.push(PathSegment::Id(id));
    assert(segment_texts(segments@) =~= seq!["relations"@, decimal(id as nat)]);
    let query: Vec<(String, String)> = Vec::new();
    assert(pairs_view(query@) =~= Seq::empty());
    endpoint(segments, query, "", "relations.delete", RequestKind::Delete, RequestBody::Absent)
}

} // verus!
