//! Roles: list, get.

use vstd::prelude::*;

use crate::http::client::{PathSegment, segment_texts};
use crate::http::pagination::{paginated_pairs, paginated_query};
use crate::resources::endpoint::{Endpoint, RequestBody, RequestKind, endpoint, segment_name};
use crate::text::decimal;
use crate::types::RedmineId;
use crate::utils::query::pairs_view;

verus! {

/// Every role. One page, of the default size.
pub fn list() -> (e: Endpoint)
    ensures
        e.describes(
            seq!["roles"@],
            paginated_pairs(Seq::empty(), None),
            "roles"@,
            "roles.list"@,
        ),
        e.kind == RequestKind::GetPage,
        e.body == RequestBody::Absent,
{
    let mut segments: Vec<PathSegment> = Vec::new();
    segments.push(segment_name("roles"));
    assert(segment_texts(segments@) =~= seq!["roles"@]);
    let base: Vec<(String, String)> = Vec::new();
    assert(pairs_view(base@) =~= Seq::<(Seq<char>, Seq<char>)>::empty());
    let query: Vec<(String, String)> = paginated_query(&base, None);
    endpoint(segments, query, "roles", "roles.list", RequestKind::GetPage, RequestBody::Absent)
}

/// The role with this ID.
pub fn get(id: RedmineId) -> (e: Endpoint)
    ensures
        e.describes(
            seq!["roles"@, decimal(id as nat)],
            Seq::empty(),
            "role"@,
            "roles.get"@,
        ),
        e.kind == RequestKind::GetOne,
        e.body == RequestBody::Absent,
{
    let mut segments: Vec<PathSegment> = Vec::new();
    segments.push(segment_name("roles"));
    segments.push(PathSegment::Id(id));
    assert(segment_texts(segments@) =~= seq!["roles"@, decimal(id as nat)]);
    let query: Vec<(String, String)> = Vec::new();
    assert(pairs_view(query@) =~= Seq::empty());
    endpoint(segments, query, "role", "roles.get", RequestKind::GetOne, RequestBody::Absent)
}

} // verus!
