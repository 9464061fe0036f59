//! Saved queries: list.

use vstd::prelude::*;

use crate::http::client::{PathSegment, segment_texts};
use crate::http::pagination::{paginated_pairs, paginated_query};
use crate::resources::endpoint::{Endpoint, RequestBody, RequestKind, endpoint, segment_name};
use crate::utils::query::pairs_view;

verus! {

/// Every saved query. One page, of the default size.
pub fn list() -> (e: Endpoint)
    ensures
        e.describes(
            seq!["queries"@],
            paginated_pairs(Seq::empty(), None),
            "queries"@,
            "queries.list"@,
        ),
        e.kind == RequestKind::GetPage,
        e.body == RequestBody::Absent,
{
    let mut segments: Vec<PathSegment> = Vec::new();
    segments.push(segment_name("queries"));
    assert(segment_texts(segments@) =~= seq!["queries"@]);
    let base: Vec<(String, String)> = Vec::new();
    assert(pairs_view(base@) =~= Seq::<(Seq<char>, Seq<char>)>::empty());
    let query: Vec<(String, String)> = paginated_query(&base, None);
    endpoint(segments, query, "queries", "queries.list", RequestKind::GetPage, RequestBody::Absent)
}

} // verus!
