//! News: CRUD.

use vstd::prelude::*;

use crate::http::client::{PathSegment, segment_texts};
use crate::http::pagination::{paginated_pairs, paginated_query};
use crate::resources::endpoint::{Endpoint, RequestBody, RequestKind, endpoint, segment_name};
use crate::text::decimal;
use crate::types::RedmineId;
use crate::utils::query::pairs_view;

verus! {

/// Every news item. One page, of the default size.
pub fn list() -> (e: Endpoint)
    ensures
        e.describes(
            seq!["news"@],
            paginated_pairs(Seq::empty(), None),
            "news"@,
            "news.list"@,
        ),
        e.kind == RequestKind::GetPage,
        e.body == RequestBody::Absent,
{
    let mut segments: Vec<PathSegment> = Vec::new();
    segments.push(segment_name("news"));
    assert(segment_texts(segments@) =~= seq!["news"@]);
    let base: Vec<(String, String)> = Vec::new();
    assert(pairs_view(base@) =~= Seq::<(Seq<char>, Seq<char>)>::empty());
    let query: Vec<(String, String)> = paginated_query(&base, None);
    endpoint(segments, query, "news", "news.list", RequestKind::GetPage, RequestBody::Absent)
}

/// The news of a project. One page, of the default size.
pub fn list_by_project(project_id: RedmineId) -> (e: Endpoint)
    ensures
        e.describes(
            seq!["projects"@, decimal(project_id as nat), "news"@],
            paginated_pairs(Seq::empty(), None),
            "news"@,
            "news.list_by_project"@,
        ),
        e.kind == RequestKind::GetPage,
        e.body == RequestBody::Absent,
{
    let mut segments: Vec<PathSegment> = Vec::new();
    segments.push(segment_name("projects"));
    segments.push(PathSegment::Id(project_id));
    segments.push(segment_name("news"));
    assert(segment_texts(segments@) =~= seq!["projects"@, decimal(project_id as nat), "news"@]);
    let base: Vec<(String, String)> = Vec::new();
    assert(pairs_view(base@) =~= Seq::<(Seq<char>, Seq<char>)>::empty());
    let query: Vec<(String, String)> = paginated_query(&base, None);
    endpoint(
        segments,
        query,
        "news",
        "news.list_by_project",
        RequestKind::GetPage,
        RequestBody::Absent,
    )
}

/// The news item with this ID.
pub fn get(id: RedmineId) -> (e: Endpoint)
    ensures
        e.describes(
            seq!["news"@, decimal(id as nat)],
            Seq::empty(),
            "news"@,
            "news.get"@,
        ),
        e.kind == RequestKind::GetOne,
        e.body == RequestBody::Absent,
{
    let mut segments: Vec<PathSegment> = Vec::new();
    segments.push(segment_name("news"));
    segments.push(PathSegment::Id(id));
    assert(segment_texts(segments@) =~= seq!["news"@, decimal(id as nat)]);
    let query: Vec<(String, String)> = Vec::new();
    assert(pairs_view(query@) =~= Seq::empty());
    endpoint(segments, query, "news", "news.get", RequestKind::GetOne, RequestBody::Absent)
}

/// Creates a news item in a project.
pub fn create(project_id: RedmineId) -> (e: Endpoint)
    ensures
        e.describes(
            seq!["projects"@, decimal(project_id as nat), "news"@],
            Seq::empty(),
            "news"@,
            "news.create"@,
        ),
        e.kind == RequestKind::PostOne,
        e.body.wraps("news"@),
{
    let mut segments: Vec<PathSegment> = Vec::new();
    segments.push(segment_name("projects"));
    segments.push(PathSegment::Id(project_id));
    segments.push(segment_name("news"));
    assert(segment_texts(segments@) =~= seq!["projects"@, decimal(project_id as nat), "news"@]);
    let query: Vec<(String, String)> = Vec::new();
    assert(pairs_view(query@) =~= Seq::empty());
    endpoint(
        segments,
        query,
        "news",
        "news.create",
        RequestKind::PostOne,
        RequestBody::Wrapped("news".to_owned()),
    )
}

/// Updates a news item.
pub fn update(id: RedmineId) -> (e: Endpoint)
    ensures
        e.describes(
            seq!["news"@, decimal(id as nat)],
            Seq::empty(),
            ""@,
            "news.update"@,
        ),
        e.kind == RequestKind::Put,
        e.body.wraps("news"@),
{
    let mut segments: Vec<PathSegment> = Vec::new();
    segments.push(segment_name("news"));
    segments.push(PathSegment::Id(id));
    assert(segment_texts(segments@) =~= seq!["news"@, decimal(id as nat)]);
    let query: Vec<(String, String)> = Vec::new();
    assert(pairs_view(query@) =~= Seq::empty());
    endpoint(
        segments,
        query,
        "",
        "news.update",
        RequestKind::Put,
        RequestBody::Wrapped("news".to_owned()),
    )
}

/// Deletes a news item.
pub fn delete(id: RedmineId) -> (e: Endpoint)
    ensures
        e.describes(
            seq!["news"@, decimal(id as nat)],
            Seq::empty(),
            ""@,
            "news.delete"@,
        ),
        e.kind == RequestKind::Delete,
        e.body == RequestBody::Absent,
{
    let mut segments: Vec<PathSegment> = Vec::new();
    segments.push(segment_name("news"));
    segments.push(PathSegment::Id(id));
    assert(segment_texts(segments@) =~= seq!["news"@, decimal(id as nat)]);
    let query: Vec<(String, String)> = Vec::new();
    assert(pairs_view(query@) =~= Seq::empty());
    endpoint(segments, query, "", "news.delete", RequestKind::Delete, RequestBody::Absent)
}

} // verus!
