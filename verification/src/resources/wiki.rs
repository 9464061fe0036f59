//! Wiki pages: CRUD and past versions.

use vstd::prelude::*;

use crate::http::client::{PathSegment, include_query, segment_texts};
use crate::http::pagination::{paginated_pairs, paginated_query};
use crate::resources::endpoint::{
    Endpoint,
    RequestBody,
    RequestKind,
    endpoint,
    include_pairs,
    segment_name,
};
use crate::text::decimal;
use crate::types::RedmineId;
use crate::utils::query::pairs_view;

verus! {

/// The wiki pages of a project. One page, of the default size.
pub fn list(project_id: RedmineId) -> (e: Endpoint)
    ensures
        e.describes(
            seq!["projects"@, decimal(project_id as nat), "wiki"@, "index"@],
            paginated_pairs(Seq::empty(), None),
            "wiki_pages"@,
            "wiki.list"@,
        ),
        e.kind == RequestKind::GetPage,
        e.body == RequestBody::Absent,
{
    let mut segments: Vec<PathSegment> = Vec::new();
    segments.push(segment_name("projects"));
    segments.push(PathSegment::Id(project_id));
    segments.push(segment_name("wiki"));
    segments.push(segment_name("index"));
    assert(segment_texts(segments@) =~= seq![
        "projects"@,
        decimal(project_id as nat),
        "wiki"@,
        "index"@,
    ]);
    let base: Vec<(String, String)> = Vec::new();
    assert(pairs_view(base@) =~= Seq::<(Seq<char>, Seq<char>)>::empty());
    let query: Vec<(String, String)> = paginated_query(&base, None);
    endpoint(segments, query, "wiki_pages", "wiki.list", RequestKind::GetPage, RequestBody::Absent)
}

/// A wiki page, with the associations named in `includes` when given.
pub fn get(project_id: RedmineId, title: &str, includes: Option<&[&str]>) -> (e: Endpoint)
    ensures
        e.describes(
            seq!["projects"@, decimal(project_id as nat), "wiki"@, title@],
            match includes {
                Some(i) => include_pairs(i@.map_values(|s: &str| s@)),
                None => Seq::empty(),
            },
            "wiki_page"@,
            "wiki.get"@,
        ),
        e.kind == RequestKind::GetOne,
        e.body == RequestBody::Absent,
{
    let mut segments: Vec<PathSegment> = Vec::new();
    segments.push(segment_name("projects"));
    segments.push(PathSegment::Id(project_id));
    segments.push(segment_name("wiki"));
    segments.push(segment_name(title));
    assert(segment_texts(segments@) =~= seq![
        "projects"@,
        decimal(project_id as nat),
        "wiki"@,
        title@,
    ]);
    let query: Vec<(String, String)> = match includes {
        Some(i) => include_query(i),
        None => Vec::new(),
    };
    assert(pairs_view(query@) =~= match includes {
        Some(i) => include_pairs(i@.map_values(|s: &str| s@)),
        None => Seq::empty(),
    });
    endpoint(segments, query, "wiki_page", "wiki.get", RequestKind::GetOne, RequestBody::Absent)
}

/// A past version of a wiki page.
pub fn get_version(project_id: RedmineId, title: &str, version: u32) -> (e: Endpoint)
    ensures
        e.describes(
            seq![
                "projects"@,
                decimal(project_id as nat),
                "wiki"@,
                title@,
                decimal(version as nat),
            ],
            Seq::empty(),
            "wiki_page"@,
            "wiki.get_version"@,
        ),
        e.kind == RequestKind::GetOne,
        e.body == RequestBody::Absent,
{
    let mut segments: Vec<PathSegment> = Vec::new();
    segments.push(segment_name("projects"));
    segments.push(PathSegment::Id(project_id));
    segments.push(segment_name("wiki"));
    segments.push(segment_name(title));
    segments.push(PathSegment::Id(version as u64));
    assert(segment_texts(segments@) =~= seq![
        "projects"@,
        decimal(project_id as nat),
        "wiki"@,
        title@,
        decimal(version as nat),
    ]);
    let query: Vec<(String, String)> = Vec::new();
    assert(pairs_view(query@) =~= Seq::empty());
    endpoint(
        segments,
        query,
        "wiki_page",
        "wiki.get_version",
        RequestKind::GetOne,
        RequestBody::Absent,
    )
}

/// Creates or updates a wiki page.
pub fn create_or_update(project_id: RedmineId, title: &str) -> (e: Endpoint)
    ensures
        e.describes(
            seq!["projects"@, decimal(project_id as nat), "wiki"@, title@],
            Seq::empty(),
            ""@,
            "wiki.create_or_update"@,
        ),
        e.kind == RequestKind::Put,
        e.body.wraps("wiki_page"@),
{
    let mut segments: Vec<PathSegment> = Vec::new();
    segments.push(segment_name("projects"));
    segments.push(PathSegment::Id(project_id));
    segments.push(segment_name("wiki"));
    segments.push(segment_name(title));
    assert(segment_texts(segments@) =~= seq![
        "projects"@,
        decimal(project_id as nat),
        "wiki"@,
        title@,
    ]);
    let query: Vec<(String, String)> = Vec::new();
    assert(pairs_view(query@) =~= Seq::empty());
    endpoint(
        segments,
        query,
        "",
        "wiki.create_or_update",
        RequestKind::Put,
        RequestBody::Wrapped("wiki_page".to_owned()),
    )
}

/// Deletes a wiki page.
pub fn delete(project_id: RedmineId, title: &str) -> (e: Endpoint)
    ensures
        e.describes(
            seq!["projects"@, decimal(project_id as nat), "wiki"@, title@],
            Seq::empty(),
            ""@,
            "wiki.delete"@,
        ),
        e.kind == RequestKind::Delete,
        e.body == RequestBody::Absent,
{
    let mut segments: Vec<PathSegment> = Vec::new();
    segments.push(segment_name("projects"));
    segments.push(PathSegment::Id(project_id));
    segments.push(segment_name("wiki"));
    segments.push(segment_name(title));
    assert(segment_texts(segments@) =~= seq![
        "projects"@,
        decimal(project_id as nat),
        "wiki"@,
        title@,
    ]);
    let query: Vec<(String, String)> = Vec::new();
    assert(pairs_view(query@) =~= Seq::empty());
    endpoint(segments, query, "", "wiki.delete", RequestKind::Delete, RequestBody::Absent)
}

} // verus!
