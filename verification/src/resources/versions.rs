//! Versions: CRUD.

use vstd::prelude::*;

use crate::http::client::{PathSegment, segment_texts};
use crate::http::pagination::{paginated_pairs, paginated_query};
use crate::resources::endpoint::{Endpoint, RequestBody, RequestKind, endpoint, segment_name};
use crate::text::decimal;
use crate::types::RedmineId;
use crate::utils::query::pairs_view;

verus! {

/// The version with this ID.
pub fn get(id: RedmineId) -> (e: Endpoint)
    ensures
        e.describes(
            seq!["versions"@, decimal(id as nat)],
            Seq::empty(),
            "version"@,
            "versions.get"@,
        ),
        e.kind == RequestKind::GetOne,
        e.body == RequestBody::Absent,
{
    let mut segments: Vec<PathSegment> = Vec::new();
    segments.push(segment_name("versions"));
    segments.push(PathSegment::Id(id));
    assert(segment_texts(segments@) =~= seq!["versions"@, decimal(id as nat)]);
    let query: Vec<(String, String)> = Vec::new();
    assert(pairs_view(query@) =~= Seq::empty());
    endpoint(segments, query, "version", "versions.get", RequestKind::GetOne, RequestBody::Absent)
}

/// The versions of a project. One page, of the default size.
pub fn list_by_project(project_id: RedmineId) -> (e: Endpoint)
    ensures
        e.describes(
            seq!["projects"@, decimal(project_id as nat), "versions"@],
            paginated_pairs(Seq::empty(), None),
            "versions"@,
            "versions.list_by_project"@,
        ),
        e.kind == RequestKind::GetPage,
        e.body == RequestBody::Absent,
{
    let mut segments: Vec<PathSegment> = Vec::new();
    segments.push(segment_name("projects"));
    segments.push(PathSegment::Id(project_id));
    segments.push(segment_name("versions"));
    assert(segment_texts(segments@) =~= seq![
        "projects"@,
        decimal(project_id as nat),
        "versions"@,
    ]);
    let base: Vec<(String, String)> = Vec::new();
    assert(pairs_view(base@) =~= Seq::<(Seq<char>, Seq<char>)>::empty());
    let query: Vec<(String, String)> = paginated_query(&base, None);
    endpoint(
        segments,
        query,
        "versions",
        "versions.list_by_project",
        RequestKind::GetPage,
        RequestBody::Absent,
    )
}

/// Creates a version in a project.
pub fn create_on_project(project_id: RedmineId) -> (e: Endpoint)
    ensures
        e.describes(
            seq!["projects"@, decimal(project_id as nat), "versions"@],
            Seq::empty(),
            "version"@,
            "versions.create_on_project"@,
        ),
        e.kind == RequestKind::PostOne,
        e.body.wraps("version"@),
{
    let mut segments: Vec<PathSegment> = Vec::new();
    segments.push(segment_name("projects"));
    segments.push(PathSegment::Id(project_id));
    segments.push(segment_name("versions"));
    assert(segment_texts(segments@) =~= seq![
        "projects"@,
        decimal(project_id as nat),
        "versions"@,
    ]);
    let query: Vec<(String, String)> = Vec::new();
    assert(pairs_view(query@) =~= Seq::empty());
    endpoint(
        segments,
        query,
        "version",
        "versions.create_on_project",
        RequestKind::PostOne,
        RequestBody::Wrapped("version".to_owned()),
    )
}

/// Updates a version.
pub fn update(id: RedmineId) -> (e: Endpoint)
    ensures
        e.describes(
            seq!["versions"@, decimal(id as nat)],
            Seq::empty(),
            ""@,
            "versions.update"@,
        ),
        e.kind == RequestKind::Put,
        e.body.wraps("version"@),
{
    let mut segments: Vec<PathSegment> = Vec::new();
    segments.push(segment_name("versions"));
    segments.push(PathSegment::Id(id));
    assert(segment_texts(segments@) =~= seq!["versions"@, decimal(id as nat)]);
    let query: Vec<(String, String)> = Vec::new();
    assert(pairs_view(query@) =~= Seq::empty());
    endpoint(
        segments,
        query,
        "",
        "versions.update",
        RequestKind::Put,
        RequestBody::Wrapped("version".to_owned()),
    )
}

/// Deletes a version.
pub fn delete(id: RedmineId) -> (e: Endpoint)
    ensures
        e.describes(
            seq!["versions"@, decimal(id as nat)],
            Seq::empty(),
            ""@,
            "versions.delete"@,
        ),
        e.kind == RequestKind::Delete,
        e.body == RequestBody::Absent,
{
    let mut segments: Vec<PathSegment> = Vec::new();
    segments.push(segment_name("versions"));
    segments.push(PathSegment::Id(id));
    assert(segment_texts(segments@) =~= seq!["versions"@, decimal(id as nat)]);
    let query: Vec<(String, String)> = Vec::new();
    assert(pairs_view(query@) =~= Seq::empty());
    endpoint(segments, query, "", "versions.delete", RequestKind::Delete, RequestBody::Absent)
}

} // verus!
