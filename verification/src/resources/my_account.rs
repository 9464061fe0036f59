//! The current user's account: get.

use vstd::prelude::*;

use crate::http::client::{PathSegment, segment_texts};
use crate::resources::endpoint::{Endpoint, RequestBody, RequestKind, endpoint, segment_name};
use crate::utils::query::pairs_view;

verus! {

/// The account of the authenticated user.
pub fn get() -> (e: Endpoint)
    ensures
        e.describes(
            seq!["my"@, "account"@],
            Seq::empty(),
            "user"@,
            "my_account.get"@,
        ),
        e.kind == RequestKind::GetOne,
        e.body == RequestBody::Absent,
{
    let mut segments: Vec<PathSegment> = Vec::new();
    segments.push(segment_name("my"));
    segments.push(segment_name("account"));
    assert(segment_texts(segments@) =~= seq!["my"@, "account"@]);
    let query: Vec<(String, String)> = Vec::new();
    assert(pairs_view(query@) =~= Seq::empty());
    endpoint(segments, query, "user", "my_account.get", RequestKind::GetOne, RequestBody::Absent)
}

} // verus!
