//! Users: CRUD, associations, the current user.

use vstd::prelude::*;

use crate::http::client::{PathSegment, include_query, segment_texts};
use crate::json::JsonValue;
use crate::resources::endpoint::{
    Endpoint,
    RequestBody,
    RequestKind,
    endpoint,
    filter_pairs,
    include_pairs,
    segment_name,
};
use crate::text::decimal;
use crate::types::RedmineId;
use crate::utils::query::filter_to_query;
use crate::utils::query::pairs_view;

verus! {

/// Every user that matches the filter, given as the document it serialises to.
pub fn list(filter: Option<&JsonValue>) -> (e: Endpoint)
    ensures
        e.describes(
            seq!["users"@],
            filter_pairs(filter),
            "users"@,
            "users.list"@,
        ),
        e.kind == RequestKind::GetAll,
        e.body == RequestBody::Absent,
{
    let mut segments: Vec<PathSegment> = Vec::new();
    segments.push(segment_name("users"));
    assert(segment_texts(segments@) =~= seq!["users"@]);
    let query: Vec<(String, String)> = filter_to_query(filter);
    assert(pairs_view(query@) =~= filter_pairs(filter));
    endpoint(segments, query, "users", "users.list", RequestKind::GetAll, RequestBody::Absent)
}

/// The user with this ID.
pub fn get(id: RedmineId) -> (e: Endpoint)
    ensures
        e.describes(
            seq!["users"@, decimal(id as nat)],
            Seq::empty(),
            "user"@,
            "users.get"@,
        ),
        e.kind == RequestKind::GetOne,
        e.body == RequestBody::Absent,
{
    let mut segments: Vec<PathSegment> = Vec::new();
    segments.push(segment_name("users"));
    segments.push(PathSegment::Id(id));
    assert(segment_texts(segments@) =~= seq!["users"@, decimal(id as nat)]);
    let query: Vec<(String, String)> = Vec::new();
    assert(pairs_view(query@) =~= Seq::empty());
    endpoint(segments, query, "user", "users.get", RequestKind::GetOne, RequestBody::Absent)
}

/// The user with this ID, with the associations named in `includes`.
pub fn get_with_includes(id: RedmineId, includes: &[&str]) -> (e: Endpoint)
    ensures
        e.describes(
            seq!["users"@, decimal(id as nat)],
            include_pairs(includes@.map_values(|s: &str| s@)),
            "user"@,
            "users.get_with_includes"@,
        ),
        e.kind == RequestKind::GetOne,
        e.body == RequestBody::Absent,
{
    let mut segments: Vec<PathSegment> = Vec::new();
    segments.push(segment_name("users"));
    segments.push(PathSegment::Id(id));
    assert(segment_texts(segments@) =~= seq!["users"@, decimal(id as nat)]);
    let query: Vec<(String, String)> = include_query(includes);
    assert(pairs_view(query@) =~= include_pairs(includes@.map_values(|s: &str| s@)));
    endpoint(
        segments,
        query,
        "user",
        "users.get_with_includes",
        RequestKind::GetOne,
        RequestBody::Absent,
    )
}

/// The authenticated user, from the account endpoint.
pub fn get_current() -> (e: Endpoint)
    ensures
        e.describes(
            seq!["my"@, "account"@],
            Seq::empty(),
            "user"@,
            "users.get_current"@,
        ),
        e.kind == RequestKind::GetOne,
        e.body == RequestBody::Absent,
{
    let mut segments: Vec<PathSegment> = Vec::new();
    segments.push(segment_name("my"));
    segments.push(segment_name("account"));
    assert(segment_texts(segments@) =~= seq!["my"@, "account"@]);
    let query: Vec<(String, String)> = Vec::new();
    assert(pairs_view(query@) =~= Seq::empty());
    endpoint(segments, query, "user", "users.get_current", RequestKind::GetOne, RequestBody::Absent)
}

/// The authenticated user, from the users endpoint.
pub fn get_current_user() -> (e: Endpoint)
    ensures
        e.describes(
            seq!["users"@, "current"@],
            Seq::empty(),
            "user"@,
            "users.get_current_user"@,
        ),
        e.kind == RequestKind::GetOne,
        e.body == RequestBody::Absent,
{
    let mut segments: Vec<PathSegment> = Vec::new();
    segments.push(segment_name("users"));
    segments.push(segment_name("current"));
    assert(segment_texts(segments@) =~= seq!["users"@, "current"@]);
    let query: Vec<(String, String)> = Vec::new();
    assert(pairs_view(query@) =~= Seq::empty());
    endpoint(
        segments,
        query,
        "user",
        "users.get_current_user",
        RequestKind::GetOne,
        RequestBody::Absent,
    )
}

/// Creates a user.
pub fn create() -> (e: Endpoint)
    ensures
        e.describes(
            seq!["users"@],
            Seq::empty(),
            "user"@,
            "users.create"@,
        ),
        e.kind == RequestKind::PostOne,
        e.body.wraps("user"@),
{
    let mut segments: Vec<PathSegment> = Vec::new();
    segments.push(segment_name("users"));
    assert(segment_texts(segments@) =~= seq!["users"@]);
    let query: Vec<(String, String)> = Vec::new();
    assert(pairs_view(query@) =~= Seq::empty());
    endpoint(
        segments,
        query,
        "user",
        "users.create",
        RequestKind::PostOne,
        RequestBody::Wrapped("user".to_owned()),
    )
}

/// Updates a user.
pub fn update(id: RedmineId) -> (e: Endpoint)
    ensures
        e.describes(
            seq!["users"@, decimal(id as nat)],
            Seq::empty(),
            ""@,
            "users.update"@,
        ),
        e.kind == RequestKind::Put,
        e.body.wraps("user"@),
{
    let mut segments: Vec<PathSegment> = Vec::new();
    segments.push(segment_name("users"));
    segments.push(PathSegment::Id(id));
    assert(segment_texts(segments@) =~= seq!["users"@, decimal(id as nat)]);
    let query: Vec<(String, String)> = Vec::new();
    assert(pairs_view(query@) =~= Seq::empty());
    endpoint(
        segments,
        query,
        "",
        "users.update",
        RequestKind::Put,
        RequestBody::Wrapped("user".to_owned()),
    )
}

/// Deletes a user.
pub fn delete(id: RedmineId) -> (e: Endpoint)
    ensures
        e.describes(
            seq!["users"@, decimal(id as nat)],
            Seq::empty(),
            ""@,
            "users.delete"@,
        ),
        e.kind == RequestKind::Delete,
        e.body == RequestBody::Absent,
{
    let mut segments: Vec<PathSegment> = Vec::new();
    segments.push(segment_name("users"));
    segments.push(PathSegment::Id(id));
    assert(segment_texts(segments@) =~= seq!["users"@, decimal(id as nat)]);
    let query: Vec<(String, String)> = Vec::new();
    assert(pairs_view(query@) =~= Seq::empty());
    endpoint(segments, query, "", "users.delete", RequestKind::Delete, RequestBody::Absent)
}

} // verus!
