//! Memberships: CRUD.

use vstd::prelude::*;

use crate::http::client::{PathSegment, segment_texts};
use crate::http::pagination::{paginated_pairs, paginated_query};
use crate::resources::endpoint::{Endpoint, RequestBody, RequestKind, endpoint, segment_name};
use crate::text::decimal;
use crate::types::RedmineId;
use crate::utils::query::pairs_view;

verus! {

/// The memberships of a project. One page, of the default size.
pub fn list_by_project(project_id: RedmineId) -> (e: Endpoint)
    ensures
        e.describes(
            seq!["projects"@, decimal(project_id as nat), "memberships"@],
            paginated_pairs(Seq::empty(), None),
            "memberships"@,
            "memberships.list_by_project"@,
        ),
        e.kind == RequestKind::GetPage,
        e.body == RequestBody::Absent,
{
    let mut segments: Vec<PathSegment> = Vec::new();
    segments.push(segment_name("projects"));
    segments.push(PathSegment::Id(project_id));
    segments.push(segment_name("memberships"));
    assert(segment_texts(segments@) =~= seq![
        "projects"@,
        decimal(project_id as nat),
        "memberships"@,
    ]);
    let base: Vec<(String, String)> = Vec::new();
    assert(pairs_view(base@) =~= Seq::<(Seq<char>, Seq<char>)>::empty());
    let query: Vec<(String, String)> = paginated_query(&base, None);
    endpoint(
        segments,
        query,
        "memberships",
        "memberships.list_by_project",
        RequestKind::GetPage,
        RequestBody::Absent,
    )
}

/// The membership with this ID.
pub fn get(id: RedmineId) -> (e: Endpoint)
    ensures
        e.describes(
            seq!["memberships"@, decimal(id as nat)],
            Seq::empty(),
            "membership"@,
            "memberships.get"@,
        ),
        e.kind == RequestKind::GetOne,
        e.body == RequestBody::Absent,
{
    let mut segments: Vec<PathSegment> = Vec::new();
    segments.push(segment_name("memberships"));
    segments.push(PathSegment::Id(id));
    assert(segment_texts(segments@) =~= seq!["memberships"@, decimal(id as nat)]);
    let query: Vec<(String, String)> = Vec::new();
    assert(pairs_view(query@) =~= Seq::empty());
    endpoint(
        segments,
        query,
        "membership",
        "memberships.get",
        RequestKind::GetOne,
        RequestBody::Absent,
    )
}

/// Creates a membership in a project.
pub fn create(project_id: RedmineId) -> (e: Endpoint)
    ensures
        e.describes(
            seq!["projects"@, decimal(project_id as nat), "memberships"@],
            Seq::empty(),
            "membership"@,
            "memberships.create"@,
        ),
        e.kind == RequestKind::PostOne,
        e.body.wraps("membership"@),
{
    let mut segments: Vec<PathSegment> = Vec::new();
    segments.push(segment_name("projects"));
    segments.push(PathSegment::Id(project_id));
    segments.push(segment_name("memberships"));
    assert(segment_texts(segments@) =~= seq![
        "projects"@,
        decimal(project_id as nat),
        "memberships"@,
    ]);
    let query: Vec<(String, String)> = Vec::new();
    assert(pairs_view(query@) =~= Seq::empty());
    endpoint(
        segments,
        query,
        "membership",
        "memberships.create",
        RequestKind::PostOne,
        RequestBody::Wrapped("membership".to_owned()),
    )
}

/// Updates the roles of a membership.
pub fn update(id: RedmineId) -> (e: Endpoint)
    ensures
        e.describes(
            seq!["memberships"@, decimal(id as nat)],
            Seq::empty(),
            ""@,
            "memberships.update"@,
        ),
        e.kind == RequestKind::Put,
        e.body.wraps("membership"@),
{
    let mut segments: Vec<PathSegment> = Vec::new();
    segments.push(segment_name("memberships"));
    segments.push(PathSegment::Id(id));
    assert(segment_texts(segments@) =~= seq!["memberships"@, decimal(id as nat)]);
    let query: Vec<(String, String)> = Vec::new();
    assert(pairs_view(query@) =~= Seq::empty());
    endpoint(
        segments,
        query,
        "",
        "memberships.update",
        RequestKind::Put,
        RequestBody::Wrapped("membership".to_owned()),
    )
}

/// Deletes a membership.
pub fn delete(id: RedmineId) -> (e: Endpoint)
    ensures
        e.describes(
            seq!["memberships"@, decimal(id as nat)],
            Seq::empty(),
            ""@,
            "memberships.delete"@,
        ),
        e.kind == RequestKind::Delete,
        e.body == RequestBody::Absent,
{
    let mut segments: Vec<PathSegment> = Vec::new();
    segments.push(segment_name("memberships"));
    segments.push(PathSegment::Id(id));
    assert(segment_texts(segments@) =~= seq!["memberships"@, decimal(id as nat)]);
    let query: Vec<(String, String)> = Vec::new();
    assert(pairs_view(query@) =~= Seq::empty());
    endpoint(segments, query, "", "memberships.delete", RequestKind::Delete, RequestBody::Absent)
}

} // verus!
