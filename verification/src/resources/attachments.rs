//! Attachments: get, delete, upload.

use vstd::prelude::*;

use crate::http::client::{PathSegment, segment_texts};
use crate::resources::endpoint::{Endpoint, RequestBody, RequestKind, endpoint, segment_name};
use crate::text::decimal;
use crate::types::RedmineId;
use crate::utils::query::pairs_view;

verus! {

/// The attachment with this ID.
pub fn get(id: RedmineId) -> (e: Endpoint)
    ensures
        e.describes(
            seq!["attachments"@, decimal(id as nat)],
            Seq::empty(),
            "attachment"@,
            "attachments.get"@,
        ),
        e.kind == RequestKind::GetOne,
        e.body == RequestBody::Absent,
{
    let mut segments: Vec<PathSegment> = Vec::new();
    segments.push(segment_name("attachments"));
    segments.push(PathSegment::Id(id));
    assert(segment_texts(segments@) =~= seq!["attachments"@, decimal(id as nat)]);
    let query: Vec<(String, String)> = Vec::new();
    assert(pairs_view(query@) =~= Seq::empty());
    endpoint(
        segments,
        query,
        "attachment",
        "attachments.get",
        RequestKind::GetOne,
        RequestBody::Absent,
    )
}

/// Deletes the attachment with this ID.
pub fn delete(id: RedmineId) -> (e: Endpoint)
    ensures
        e.describes(
            seq!["attachments"@, decimal(id as nat)],
            Seq::empty(),
            ""@,
            "attachments.delete"@,
        ),
        e.kind == RequestKind::Delete,
        e.body == RequestBody::Absent,
{
    let mut segments: Vec<PathSegment> = Vec::new();
    segments.push(segment_name("attachments"));
    segments.push(PathSegment::Id(id));
    assert(segment_texts(segments@) =~= seq!["attachments"@, decimal(id as nat)]);
    let query: Vec<(String, String)> = Vec::new();
    assert(pairs_view(query@) =~= Seq::empty());
    endpoint(segments, query, "", "attachments.delete", RequestKind::Delete, RequestBody::Absent)
}

/// Uploads a file: the upload endpoint, with the file name as the
/// `filename` query parameter, the file's content as the body, and the upload
/// token under `upload`.
pub fn upload(filename: &str) -> (e: Endpoint)
    ensures
        e.describes(
            seq!["uploads"@],
            seq![("filename"@, filename@)],
            "upload"@,
            "attachments.upload"@,
        ),
        e.kind == RequestKind::Upload,
        e.body == RequestBody::Absent,
{
    let mut segments: Vec<PathSegment> = Vec::new();
    segments.push(segment_name("uploads"));
    assert(segment_texts(segments@) =~= seq!["uploads"@]);
    let mut query: Vec<(String, String)> = Vec::new();
    query.push(("filename".to_owned(), filename.to_owned()));
    assert(pairs_view(query@) =~= seq![("filename"@, filename@)]);
    endpoint(
        segments,
        query,
        "upload",
        "attachments.upload",
        RequestKind::Upload,
        RequestBody::Absent,
    )
}

} // verus!
