//! Enumerations: issue priorities, time-entry activities, document categories.

use vstd::prelude::*;

use crate::http::client::{PathSegment, segment_texts};
use crate::http::pagination::{paginated_pairs, paginated_query};
use crate::resources::endpoint::{Endpoint, RequestBody, RequestKind, endpoint, segment_name};
use crate::utils::query::pairs_view;

verus! {

/// The issue priorities. One page, of the default size.
pub fn list_issue_priorities() -> (e: Endpoint)
    ensures
        e.describes(
            seq!["enumerations"@, "issue_priorities"@],
            paginated_pairs(Seq::empty(), None),
            "issue_priorities"@,
            "enumerations.list_issue_priorities"@,
        ),
        e.kind == RequestKind::GetPage,
        e.body == RequestBody::Absent,
{
    let mut segments: Vec<PathSegment> = Vec::new();
    segments.push(segment_name("enumerations"));
    segments.push(segment_name("issue_priorities"));
    assert(segment_texts(segments@) =~= seq!["enumerations"@, "issue_priorities"@]);
    let base: Vec<(String, String)> = Vec::new();
    assert(pairs_view(base@) =~= Seq::<(Seq<char>, Seq<char>)>::empty());
    let query: Vec<(String, String)> = paginated_query(&base, None);
    endpoint(
        segments,
        query,
        "issue_priorities",
        "enumerations.list_issue_priorities",
        RequestKind::GetPage,
        RequestBody::Absent,
    )
}

/// The time-entry activities. One page, of the default size.
pub fn list_time_entry_activities() -> (e: Endpoint)
    ensures
        e.describes(
            seq!["enumerations"@, "time_entry_activities"@],
            paginated_pairs(Seq::empty(), None),
            "time_entry_activities"@,
            "enumerations.list_time_entry_activities"@,
        ),
        e.kind == RequestKind::GetPage,
        e.body == RequestBody::Absent,
{
    let mut segments: Vec<PathSegment> = Vec::new();
    segments.push(segment_name("enumerations"));
    segments.push(segment_name("time_entry_activities"));
    assert(segment_texts(segments@) =~= seq!["enumerations"@, "time_entry_activities"@]);
    let base: Vec<(String, String)> = Vec::new();
    assert(pairs_view(base@) =~= Seq::<(Seq<char>, Seq<char>)>::empty());
    let query: Vec<(String, String)> = paginated_query(&base, None);
    endpoint(
        segments,
        query,
        "time_entry_activities",
        "enumerations.list_time_entry_activities",
        RequestKind::GetPage,
        RequestBody::Absent,
    )
}

/// The document categories. One page, of the default size.
pub fn list_document_categories() -> (e: Endpoint)
    ensures
        e.describes(
            seq!["enumerations"@, "document_categories"@],
            paginated_pairs(Seq::empty(), None),
            "document_categories"@,
            "enumerations.list_document_categories"@,
        ),
        e.kind == RequestKind::GetPage,
        e.body == RequestBody::Absent,
{
    let mut segments: Vec<PathSegment> = Vec::new();
    segments.push(segment_name("enumerations"));
    segments.push(segment_name("document_categories"));
    assert(segment_texts(segments@) =~= seq!["enumerations"@, "document_categories"@]);
    let base: Vec<(String, String)> = Vec::new();
    assert(pairs_view(base@) =~= Seq::<(Seq<char>, Seq<char>)>::empty());
    let query: Vec<(String, String)> = paginated_query(&base, None);
    endpoint(
        segments,
        query,
        "document_categories",
        "enumerations.list_document_categories",
        RequestKind::GetPage,
        RequestBody::Absent,
    )
}

} // verus!
