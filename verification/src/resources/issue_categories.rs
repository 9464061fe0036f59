//! Issue categories: CRUD.

use vstd::prelude::*;

use crate::http::client::{PathSegment, reassign_query, segment_texts};
use crate::http::pagination::{paginated_pairs, paginated_query};
use crate::resources::endpoint::{
    Endpoint,
    RequestBody,
    RequestKind,
    endpoint,
    reassign_pairs,
    segment_name,
};
use crate::text::decimal;
use crate::types::RedmineId;
use crate::utils::query::pairs_view;

verus! {

/// The issue categories of a project. One page, of the default size.
pub fn list_by_project(project_id: RedmineId) -> (e: Endpoint)
    ensures
        e.describes(
            seq!["projects"@, decimal(project_id as nat), "issue_categories"@],
            paginated_pairs(Seq::empty(), None),
            "issue_categories"@,
            "issue_categories.list_by_project"@,
        ),
        e.kind == RequestKind::GetPage,
        e.body == RequestBody::Absent,
{
    let mut segments: Vec<PathSegment> = Vec::new();
    segments.push(segment_name("projects"));
    segments.push(PathSegment::Id(project_id));
    segments.push(segment_name("issue_categories"));
    assert(segment_texts(segments@) =~= seq![
        "projects"@,
        decimal(project_id as nat),
        "issue_categories"@,
    ]);
    let base: Vec<(String, String)> = Vec::new();
    assert(pairs_view(base@) =~= Seq::<(Seq<char>, Seq<char>)>::empty());
    let query: Vec<(String, String)> = paginated_query(&base, None);
    endpoint(
        segments,
        query,
        "issue_categories",
        "issue_categories.list_by_project",
        RequestKind::GetPage,
        RequestBody::Absent,
    )
}

/// The issue category with this ID.
pub fn get(id: RedmineId) -> (e: Endpoint)
    ensures
        e.describes(
            seq!["issue_categories"@, decimal(id as nat)],
            Seq::empty(),
            "issue_category"@,
            "issue_categories.get"@,
        ),
        e.kind == RequestKind::GetOne,
        e.body == RequestBody::Absent,
{
    let mut segments: Vec<PathSegment> = Vec::new();
    segments.push(segment_name("issue_categories"));
    segments.push(PathSegment::Id(id));
    assert(segment_texts(segments@) =~= seq!["issue_categories"@, decimal(id as nat)]);
    let query: Vec<(String, String)> = Vec::new();
    assert(pairs_view(query@) =~= Seq::empty());
    endpoint(
        segments,
        query,
        "issue_category",
        "issue_categories.get",
        RequestKind::GetOne,
        RequestBody::Absent,
    )
}

/// Creates an issue category in a project.
pub fn create(project_id: RedmineId) -> (e: Endpoint)
    ensures
        e.describes(
            seq!["projects"@, decimal(project_id as nat), "issue_categories"@],
            Seq::empty(),
            "issue_category"@,
            "issue_categories.create"@,
        ),
        e.kind == RequestKind::PostOne,
        e.body.wraps("issue_category"@),
{
    let mut segments: Vec<PathSegment> = Vec::new();
    segments.push(segment_name("projects"));
    segments.push(PathSegment::Id(project_id));
    segments.push(segment_name("issue_categories"));
    assert(segment_texts(segments@) =~= seq![
        "projects"@,
        decimal(project_id as nat),
        "issue_categories"@,
    ]);
    let query: Vec<(String, String)> = Vec::new();
    assert(pairs_view(query@) =~= Seq::empty());
    endpoint(
        segments,
        query,
        "issue_category",
        "issue_categories.create",
        RequestKind::PostOne,
        RequestBody::Wrapped("issue_category".to_owned()),
    )
}

/// Updates an issue category.
pub fn update(id: RedmineId) -> (e: Endpoint)
    ensures
        e.describes(
            seq!["issue_categories"@, decimal(id as nat)],
            Seq::empty(),
            ""@,
            "issue_categories.update"@,
        ),
        e.kind == RequestKind::Put,
        e.body.wraps("issue_category"@),
{
    let mut segments: Vec<PathSegment> = Vec::new();
    segments.push(segment_name("issue_categories"));
    segments.push(PathSegment::Id(id));
    assert(segment_texts(segments@) =~= seq!["issue_categories"@, decimal(id as nat)]);
    let query: Vec<(String, String)> = Vec::new();
    assert(pairs_view(query@) =~= Seq::empty());
    endpoint(
        segments,
        query,
        "",
        "issue_categories.update",
        RequestKind::Put,
        RequestBody::Wrapped("issue_category".to_owned()),
    )
}

/// Deletes an issue category, reassigning its issues when asked to.
pub fn delete(id: RedmineId, reassign_to_id: Option<RedmineId>) -> (e: Endpoint)
    ensures
        e.describes(
            seq!["issue_categories"@, decimal(id as nat)],
            reassign_pairs(reassign_to_id),
            ""@,
            "issue_categories.delete"@,
        ),
        e.kind == RequestKind::Delete,
        e.body == RequestBody::Absent,
{
    let mut segments: Vec<PathSegment> = Vec::new();
    segments.push(segment_name("issue_categories"));
    segments.push(PathSegment::Id(id));
    assert(segment_texts(segments@) =~= seq!["issue_categories"@, decimal(id as nat)]);
    let query: Vec<(String, String)> = reassign_query(reassign_to_id);
    assert(pairs_view(query@) =~= reassign_pairs(reassign_to_id));
    endpoint(
        segments,
        query,
        "",
        "issue_categories.delete",
        RequestKind::Delete,
        RequestBody::Absent,
    )
}

} // verus!
