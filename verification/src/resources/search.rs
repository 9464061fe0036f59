//! Full-text search.

use vstd::prelude::*;

use crate::http::client::{PathSegment, segment_texts};
use crate::http::pagination::{paginated_pairs, paginated_query, PaginationParams};
use crate::json::JsonValue;
use crate::resources::endpoint::{Endpoint, RequestBody, RequestKind, endpoint, segment_name};
use crate::types::SearchFilter;
use crate::utils::query::pairs_view;
use crate::utils::query::{filter_to_query, flatten};

verus! {

/// A search with `filter`, given `document`, the document the filter
/// serialises to: one page, whose query is the document's pairs, then the
/// filter's offset and limit as pagination pairs, each where it is set.
pub fn search(filter: &SearchFilter, document: &JsonValue) -> (e: Endpoint)
    ensures
        e.describes(
            seq!["search"@],
            paginated_pairs(
                flatten(Seq::empty(), *document),
                Some((PaginationParams { offset: filter.offset, limit: filter.limit })),
            ),
            "results"@,
            "search.search"@,
        ),
        e.kind == RequestKind::GetPage,
        e.body == RequestBody::Absent,
{
    let mut segments: Vec<PathSegment> = Vec::new();
    segments.push(segment_name("search"));
    assert(segment_texts(segments@) =~= seq!["search"@]);
    let base: Vec<(String, String)> = filter_to_query(Some(document));
    let params = PaginationParams { offset: filter.offset, limit: filter.limit };
    let query: Vec<(String, String)> = paginated_query(&base, Some(&params));
    endpoint(segments, query, "results", "search.search", RequestKind::GetPage, RequestBody::Absent)
}

} // verus!
