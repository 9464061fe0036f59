//! Custom fields: list.

use vstd::prelude::*;

use crate::http::client::{PathSegment, segment_texts};
use crate::http::pagination::{paginated_pairs, paginated_query};
use crate::resources::endpoint::{Endpoint, RequestBody, RequestKind, endpoint, segment_name};
use crate::utils::query::pairs_view;

verus! {

/// Every custom field. One page, of the default size.
pub fn list() -> (e: Endpoint)
    ensures
        e.describes(
            seq!["custom_fields"@],
            paginated_pairs(Seq::empty(), None),
            "custom_fields"@,
            "custom_fields.list"@,
        ),
        e.kind == RequestKind::GetPage,
        e.body == RequestBody::Absent,
{
    let mut segments: Vec<PathSegment> = Vec::new();
    segments.push(segment_name("custom_fields"));
    assert(segment_texts(segments@) =~= seq!["custom_fields"@]);
    let base: Vec<(String, String)> = Vec::new();
    assert(pairs_view(base@) =~= Seq::<(Seq<char>, Seq<char>)>::empty());
    let query: Vec<(String, String)> = paginated_query(&base, None);
    endpoint(
        segments,
        query,
        "custom_fields",
        "custom_fields.list",
        RequestKind::GetPage,
        RequestBody::Absent,
    )
}

} // verus!
