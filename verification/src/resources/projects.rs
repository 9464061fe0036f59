//! Projects: CRUD, archive, unarchive.

use vstd::prelude::*;

use crate::http::client::{PathSegment, include_query, segment_texts};
use crate::resources::endpoint::{
    Endpoint,
    RequestBody,
    RequestKind,
    endpoint,
    include_pairs,
    segment_name,
};
use crate::text::decimal;
use crate::types::RedmineId;
use crate::utils::query::pairs_view;

verus! {

/// Every project.
pub fn list() -> (e: Endpoint)
    ensures
        e.describes(
            seq!["projects"@],
            Seq::empty(),
            "projects"@,
            "projects.list"@,
        ),
        e.kind == RequestKind::GetAll,
        e.body == RequestBody::Absent,
{
    let mut segments: Vec<PathSegment> = Vec::new();
    segments.push(segment_name("projects"));
    assert(segment_texts(segments@) =~= seq!["projects"@]);
    let query: Vec<(String, String)> = Vec::new();
    assert(pairs_view(query@) =~= Seq::empty());
    endpoint(segments, query, "projects", "projects.list", RequestKind::GetAll, RequestBody::Absent)
}

/// The project with this ID.
pub fn get(id: RedmineId) -> (e: Endpoint)
    ensures
        e.describes(
            seq!["projects"@, decimal(id as nat)],
            Seq::empty(),
            "project"@,
            "projects.get"@,
        ),
        e.kind == RequestKind::GetOne,
        e.body == RequestBody::Absent,
{
    let mut segments: Vec<PathSegment> = Vec::new();
    segments.push(segment_name("projects"));
    segments.push(PathSegment::Id(id));
    assert(segment_texts(segments@) =~= seq!["projects"@, decimal(id as nat)]);
    let query: Vec<(String, String)> = Vec::new();
    assert(pairs_view(query@) =~= Seq::empty());
    endpoint(segments, query, "project", "projects.get", RequestKind::GetOne, RequestBody::Absent)
}

/// The project with this ID, with the associations named in `includes`.
pub fn get_with_includes(id: RedmineId, includes: &[&str]) -> (e: Endpoint)
    ensures
        e.describes(
            seq!["projects"@, decimal(id as nat)],
            include_pairs(includes@.map_values(|s: &str| s@)),
            "project"@,
            "projects.get_with_includes"@,
        ),
        e.kind == RequestKind::GetOne,
        e.body == RequestBody::Absent,
{
    let mut segments: Vec<PathSegment> = Vec::new();
    segments.push(segment_name("projects"));
    segments.push(PathSegment::Id(id));
    assert(segment_texts(segments@) =~= seq!["projects"@, decimal(id as nat)]);
    let query: Vec<(String, String)> = include_query(includes);
    assert(pairs_view(query@) =~= include_pairs(includes@.map_values(|s: &str| s@)));
    endpoint(
        segments,
        query,
        "project",
        "projects.get_with_includes",
        RequestKind::GetOne,
        RequestBody::Absent,
    )
}

/// Creates a project.
pub fn create() -> (e: Endpoint)
    ensures
        e.describes(
            seq!["projects"@],
            Seq::empty(),
            "project"@,
            "projects.create"@,
        ),
        e.kind == RequestKind::PostOne,
        e.body.wraps("project"@),
{
    let mut segments: Vec<PathSegment> = Vec::new();
    segments.push(segment_name("projects"));
    assert(segment_texts(segments@) =~= seq!["projects"@]);
    let query: Vec<(String, String)> = Vec::new();
    assert(pairs_view(query@) =~= Seq::empty());
    endpoint(
        segments,
        query,
        "project",
        "projects.create",
        RequestKind::PostOne,
        RequestBody::Wrapped("project".to_owned()),
    )
}

/// Updates a project.
pub fn update(id: RedmineId) -> (e: Endpoint)
    ensures
        e.describes(
            seq!["projects"@, decimal(id as nat)],
            Seq::empty(),
            ""@,
            "projects.update"@,
        ),
        e.kind == RequestKind::Put,
        e.body.wraps("project"@),
{
    let mut segments: Vec<PathSegment> = Vec::new();
    segments.push(segment_name("projects"));
    segments.push(PathSegment::Id(id));
    assert(segment_texts(segments@) =~= seq!["projects"@, decimal(id as nat)]);
    let query: Vec<(String, String)> = Vec::new();
    assert(pairs_view(query@) =~= Seq::empty());
    endpoint(
        segments,
        query,
        "",
        "projects.update",
        RequestKind::Put,
        RequestBody::Wrapped("project".to_owned()),
    )
}

/// Deletes a project for good.
pub fn delete(id: RedmineId) -> (e: Endpoint)
    ensures
        e.describes(
            seq!["projects"@, decimal(id as nat)],
            Seq::empty(),
            ""@,
            "projects.delete"@,
        ),
        e.kind == RequestKind::Delete,
        e.body == RequestBody::Absent,
{
    let mut segments: Vec<PathSegment> = Vec::new();
    segments.push(segment_name("projects"));
    segments.push(PathSegment::Id(id));
    assert(segment_texts(segments@) =~= seq!["projects"@, decimal(id as nat)]);
    let query: Vec<(String, String)> = Vec::new();
    assert(pairs_view(query@) =~= Seq::empty());
    endpoint(segments, query, "", "projects.delete", RequestKind::Delete, RequestBody::Absent)
}

/// Archives a project.
pub fn archive(id: RedmineId) -> (e: Endpoint)
    ensures
        e.describes(
            seq!["projects"@, decimal(id as nat), "archive"@],
            Seq::empty(),
            ""@,
            "projects.archive"@,
        ),
        e.kind == RequestKind::Put,
        e.body == RequestBody::EmptyObject,
{
    let mut segments: Vec<PathSegment> = Vec::new();
    segments.push(segment_name("projects"));
    segments.push(PathSegment::Id(id));
    segments.push(segment_name("archive"));
    assert(segment_texts(segments@) =~= seq!["projects"@, decimal(id as nat), "archive"@]);
    let query: Vec<(String, String)> = Vec::new();
    assert(pairs_view(query@) =~= Seq::empty());
    endpoint(segments, query, "", "projects.archive", RequestKind::Put, RequestBody::EmptyObject)
}

/// Unarchives a project.
pub fn unarchive(id: RedmineId) -> (e: Endpoint)
    ensures
        e.describes(
            seq!["projects"@, decimal(id as nat), "unarchive"@],
            Seq::empty(),
            ""@,
            "projects.unarchive"@,
        ),
        e.kind == RequestKind::Put,
        e.body == RequestBody::EmptyObject,
{
    let mut segments: Vec<PathSegment> = Vec::new();
    segments.push(segment_name("projects"));
    segments.push(PathSegment::Id(id));
    segments.push(segment_name("unarchive"));
    assert(segment_texts(segments@) =~= seq!["projects"@, decimal(id as nat), "unarchive"@]);
    let query: Vec<(String, String)> = Vec::new();
    assert(pairs_view(query@) =~= Seq::empty());
    endpoint(segments, query, "", "projects.unarchive", RequestKind::Put, RequestBody::EmptyObject)
}

} // verus!
