//! Journals: update, remove.

use vstd::prelude::*;

use crate::http::client::{PathSegment, segment_texts};
use crate::resources::endpoint::{Endpoint, RequestBody, RequestKind, endpoint, segment_name};
use crate::text::decimal;
use crate::types::RedmineId;
use crate::utils::query::pairs_view;

verus! {

/// Updates the notes of a journal.
pub fn update(id: RedmineId) -> (e: Endpoint)
    ensures
        e.describes(
            seq!["journals"@, decimal(id as nat)],
            Seq::empty(),
            ""@,
            "journals.update"@,
        ),
        e.kind == RequestKind::Put,
        e.body.wraps("journal"@),
{
    let mut segments: Vec<PathSegment> = Vec::new();
    segments.push(segment_name("journals"));
    segments.push(PathSegment::Id(id));
    assert(segment_texts(segments@) =~= seq!["journals"@, decimal(id as nat)]);
    let query: Vec<(String, String)> = Vec::new();
    assert(pairs_view(query@) =~= Seq::empty());
    endpoint(
        segments,
        query,
        "",
        "journals.update",
        RequestKind::Put,
        RequestBody::Wrapped("journal".to_owned()),
    )
}

/// Clears the notes of a journal.
pub fn remove(id: RedmineId) -> (e: Endpoint)
    ensures
        e.describes(
            seq!["journals"@, decimal(id as nat)],
            Seq::empty(),
            ""@,
            "journals.remove"@,
        ),
        e.kind == RequestKind::Put,
        e.body == RequestBody::ClearNotes,
{
    let mut segments: Vec<PathSegment> = Vec::new();
    segments.push(segment_name("journals"));
    segments.push(PathSegment::Id(id));
    assert(segment_texts(segments@) =~= seq!["journals"@, decimal(id as nat)]);
    let query: Vec<(String, String)> = Vec::new();
    assert(pairs_view(query@) =~= Seq::empty());
    endpoint(segments, query, "", "journals.remove", RequestKind::Put, RequestBody::ClearNotes)
}

} // verus!
