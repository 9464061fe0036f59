//! Project files: list_by_project, attach_to_project.

use vstd::prelude::*;

use crate::http::client::{PathSegment, segment_texts};
use crate::http::pagination::{paginated_pairs, paginated_query};
use crate::resources::endpoint::{Endpoint, RequestBody, RequestKind, endpoint, segment_name};
use crate::text::decimal;
use crate::types::RedmineId;
use crate::utils::query::pairs_view;

verus! {

/// The files of a project. One page, of the default size.
pub fn list_by_project(project_id: RedmineId) -> (e: Endpoint)
    ensures
        e.describes(
            seq!["projects"@, decimal(project_id as nat), "files"@],
            paginated_pairs(Seq::empty(), None),
            "files"@,
            "files.list_by_project"@,
        ),
        e.kind == RequestKind::GetPage,
        e.body == RequestBody::Absent,
{
    let mut segments: Vec<PathSegment> = Vec::new();
    segments.push(segment_name("projects"));
    segments.push(PathSegment::Id(project_id));
    segments.push(segment_name("files"));
    assert(segment_texts(segments@) =~= seq!["projects"@, decimal(project_id as nat), "files"@]);
    let base: Vec<(String, String)> = Vec::new();
    assert(pairs_view(base@) =~= Seq::<(Seq<char>, Seq<char>)>::empty());
    let query: Vec<(String, String)> = paginated_query(&base, None);
    endpoint(
        segments,
        query,
        "files",
        "files.list_by_project",
        RequestKind::GetPage,
        RequestBody::Absent,
    )
}

/// Attaches an uploaded file to a project.
pub fn attach_to_project(project_id: RedmineId) -> (e: Endpoint)
    ensures
        e.describes(
            seq!["projects"@, decimal(project_id as nat), "files"@],
            Seq::empty(),
            "file"@,
            "files.attach_to_project"@,
        ),
        e.kind == RequestKind::PostOne,
        e.body.wraps("file"@),
{
    let mut segments: Vec<PathSegment> = Vec::new();
    segments.push(segment_name("projects"));
    segments.push(PathSegment::Id(project_id));
    segments.push(segment_name("files"));
    assert(segment_texts(segments@) =~= seq!["projects"@, decimal(project_id as nat), "files"@]);
    let query: Vec<(String, String)> = Vec::new();
    assert(pairs_view(query@) =~= Seq::empty());
    endpoint(
        segments,
        query,
        "file",
        "files.attach_to_project",
        RequestKind::PostOne,
        RequestBody::Wrapped("file".to_owned()),
    )
}

} // verus!
