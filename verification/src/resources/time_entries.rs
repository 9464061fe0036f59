//! Time entries: CRUD.

use vstd::prelude::*;

use crate::http::client::{PathSegment, segment_texts};
use crate::json::JsonValue;
use crate::resources::endpoint::{
    Endpoint,
    RequestBody,
    RequestKind,
    endpoint,
    filter_pairs,
    segment_name,
};
use crate::text::decimal;
use crate::types::RedmineId;
use crate::utils::query::filter_to_query;
use crate::utils::query::pairs_view;

verus! {

/// Every time entry that matches the filter, given as the document it serialises to.
pub fn list(filter: Option<&JsonValue>) -> (e: Endpoint)
    ensures
        e.describes(
            seq!["time_entries"@],
            filter_pairs(filter),
            "time_entries"@,
            "time_entries.list"@,
        ),
        e.kind == RequestKind::GetAll,
        e.body == RequestBody::Absent,
{
    let mut segments: Vec<PathSegment> = Vec::new();
    segments.push(segment_name("time_entries"));
    assert(segment_texts(segments@) =~= seq!["time_entries"@]);
    let query: Vec<(String, String)> = filter_to_query(filter);
    assert(pairs_view(query@) =~= filter_pairs(filter));
    endpoint(
        segments,
        query,
        "time_entries",
        "time_entries.list",
        RequestKind::GetAll,
        RequestBody::Absent,
    )
}

/// The time entry with this ID.
pub fn get(id: RedmineId) -> (e: Endpoint)
    ensures
        e.describes(
            seq!["time_entries"@, decimal(id as nat)],
            Seq::empty(),
            "time_entry"@,
            "time_entries.get"@,
        ),
        e.kind == RequestKind::GetOne,
        e.body == RequestBody::Absent,
{
    let mut segments: Vec<PathSegment> = Vec::new();
    segments.push(segment_name("time_entries"));
    segments.push(PathSegment::Id(id));
    assert(segment_texts(segments@) =~= seq!["time_entries"@, decimal(id as nat)]);
    let query: Vec<(String, String)> = Vec::new();
    assert(pairs_view(query@) =~= Seq::empty());
    endpoint(
        segments,
        query,
        "time_entry",
        "time_entries.get",
        RequestKind::GetOne,
        RequestBody::Absent,
    )
}

/// Creates a time entry.
pub fn create() -> (e: Endpoint)
    ensures
        e.describes(
            seq!["time_entries"@],
            Seq::empty(),
            "time_entry"@,
            "time_entries.create"@,
        ),
        e.kind == RequestKind::PostOne,
        e.body.wraps("time_entry"@),
{
    let mut segments: Vec<PathSegment> = Vec::new();
    segments.push(segment_name("time_entries"));
    assert(segment_texts(segments@) =~= seq!["time_entries"@]);
    let query: Vec<(String, String)> = Vec::new();
    assert(pairs_view(query@) =~= Seq::empty());
    endpoint(
        segments,
        query,
        "time_entry",
        "time_entries.create",
        RequestKind::PostOne,
        RequestBody::Wrapped("time_entry".to_owned()),
    )
}

/// Updates a time entry.
pub fn update(id: RedmineId) -> (e: Endpoint)
    ensures
        e.describes(
            seq!["time_entries"@, decimal(id as nat)],
            Seq::empty(),
            ""@,
            "time_entries.update"@,
        ),
        e.kind == RequestKind::Put,
        e.body.wraps("time_entry"@),
{
    let mut segments: Vec<PathSegment> = Vec::new();
    segments.push(segment_name("time_entries"));
    segments.push(PathSegment::Id(id));
    assert(segment_texts(segments@) =~= seq!["time_entries"@, decimal(id as nat)]);
    let query: Vec<(String, String)> = Vec::new();
    assert(pairs_view(query@) =~= Seq::empty());
    endpoint(
        segments,
        query,
        "",
        "time_entries.update",
        RequestKind::Put,
        RequestBody::Wrapped("time_entry".to_owned()),
    )
}

/// Deletes a time entry.
pub fn delete(id: RedmineId) -> (e: Endpoint)
    ensures
        e.describes(
            seq!["time_entries"@, decimal(id as nat)],
            Seq::empty(),
            ""@,
            "time_entries.delete"@,
        ),
        e.kind == RequestKind::Delete,
        e.body == RequestBody::Absent,
{
    let mut segments: Vec<PathSegment> = Vec::new();
    segments.push(segment_name("time_entries"));
    segments.push(PathSegment::Id(id));
    assert(segment_texts(segments@) =~= seq!["time_entries"@, decimal(id as nat)]);
    let query: Vec<(String, String)> = Vec::new();
    assert(pairs_view(query@) =~= Seq::empty());
    endpoint(segments, query, "", "time_entries.delete", RequestKind::Delete, RequestBody::Absent)
}

} // verus!
