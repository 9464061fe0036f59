//! Groups: CRUD, add_user, remove_user.

use vstd::prelude::*;

use crate::http::client::{PathSegment, include_query, segment_texts};
use crate::resources::endpoint::{
    Endpoint,
    RequestBody,
    RequestKind,
    endpoint,
    include_pairs,
    segment_name,
};
use crate::text::decimal;
use crate::types::RedmineId;
use crate::utils::query::pairs_view;

verus! {

/// Every group.
pub fn list() -> (e: Endpoint)
    ensures
        e.describes(
            seq!["groups"@],
            Seq::empty(),
            "groups"@,
            "groups.list"@,
        ),
        e.kind == RequestKind::GetAll,
        e.body == RequestBody::Absent,
{
    let mut segments: Vec<PathSegment> = Vec::new();
    segments.push(segment_name("groups"));
    assert(segment_texts(segments@) =~= seq!["groups"@]);
    let query: Vec<(String, String)> = Vec::new();
    assert(pairs_view(query@) =~= Seq::empty());
    endpoint(segments, query, "groups", "groups.list", RequestKind::GetAll, RequestBody::Absent)
}

/// The group with this ID.
pub fn get(id: RedmineId) -> (e: Endpoint)
    ensures
        e.describes(
            seq!["groups"@, decimal(id as nat)],
            Seq::empty(),
            "group"@,
            "groups.get"@,
        ),
        e.kind == RequestKind::GetOne,
        e.body == RequestBody::Absent,
{
    let mut segments: Vec<PathSegment> = Vec::new();
    segments.push(segment_name("groups"));
    segments.push(PathSegment::Id(id));
    assert(segment_texts(segments@) =~= seq!["groups"@, decimal(id as nat)]);
    let query: Vec<(String, String)> = Vec::new();
    assert(pairs_view(query@) =~= Seq::empty());
    endpoint(segments, query, "group", "groups.get", RequestKind::GetOne, RequestBody::Absent)
}

/// The group with this ID, with the associations named in `includes`.
pub fn get_with_includes(id: RedmineId, includes: &[&str]) -> (e: Endpoint)
    ensures
        e.describes(
            seq!["groups"@, decimal(id as nat)],
            include_pairs(includes@.map_values(|s: &str| s@)),
            "group"@,
            "groups.get_with_includes"@,
        ),
        e.kind == RequestKind::GetOne,
        e.body == RequestBody::Absent,
{
    let mut segments: Vec<PathSegment> = Vec::new();
    segments.push(segment_name("groups"));
    segments.push(PathSegment::Id(id));
    assert(segment_texts(segments@) =~= seq!["groups"@, decimal(id as nat)]);
    let query: Vec<(String, String)> = include_query(includes);
    assert(pairs_view(query@) =~= include_pairs(includes@.map_values(|s: &str| s@)));
    endpoint(
        segments,
        query,
        "group",
        "groups.get_with_includes",
        RequestKind::GetOne,
        RequestBody::Absent,
    )
}

/// Creates a group.
pub fn create() -> (e: Endpoint)
    ensures
        e.describes(
            seq!["groups"@],
            Seq::empty(),
            "group"@,
            "groups.create"@,
        ),
        e.kind == RequestKind::PostOne,
        e.body.wraps("group"@),
{
    let mut segments: Vec<PathSegment> = Vec::new();
    segments.push(segment_name("groups"));
    assert(segment_texts(segments@) =~= seq!["groups"@]);
    let query: Vec<(String, String)> = Vec::new();
    assert(pairs_view(query@) =~= Seq::empty());
    endpoint(
        segments,
        query,
        "group",
        "groups.create",
        RequestKind::PostOne,
        RequestBody::Wrapped("group".to_owned()),
    )
}

/// Updates a group.
pub fn update(id: RedmineId) -> (e: Endpoint)
    ensures
        e.describes(
            seq!["groups"@, decimal(id as nat)],
            Seq::empty(),
            ""@,
            "groups.update"@,
        ),
        e.kind == RequestKind::Put,
        e.body.wraps("group"@),
{
    let mut segments: Vec<PathSegment> = Vec::new();
    segments.push(segment_name("groups"));
    segments.push(PathSegment::Id(id));
    assert(segment_texts(segments@) =~= seq!["groups"@, decimal(id as nat)]);
    let query: Vec<(String, String)> = Vec::new();
    assert(pairs_view(query@) =~= Seq::empty());
    endpoint(
        segments,
        query,
        "",
        "groups.update",
        RequestKind::Put,
        RequestBody::Wrapped("group".to_owned()),
    )
}

/// Deletes a group.
pub fn delete(id: RedmineId) -> (e: Endpoint)
    ensures
        e.describes(
            seq!["groups"@, decimal(id as nat)],
            Seq::empty(),
            ""@,
            "groups.delete"@,
        ),
        e.kind == RequestKind::Delete,
        e.body == RequestBody::Absent,
{
    let mut segments: Vec<PathSegment> = Vec::new();
    segments.push(segment_name("groups"));
    segments.push(PathSegment::Id(id));
    assert(segment_texts(segments@) =~= seq!["groups"@, decimal(id as nat)]);
    let query: Vec<(String, String)> = Vec::new();
    assert(pairs_view(query@) =~= Seq::empty());
    endpoint(segments, query, "", "groups.delete", RequestKind::Delete, RequestBody::Absent)
}

/// Adds a user to a group.
pub fn add_user(group_id: RedmineId, user_id: RedmineId) -> (e: Endpoint)
    ensures
        e.describes(
            seq!["groups"@, decimal(group_id as nat), "users"@],
            Seq::empty(),
            ""@,
            "groups.add_user"@,
        ),
        e.kind == RequestKind::Post,
        e.body == RequestBody::UserId(user_id),
{
    let mut segments: Vec<PathSegment> = Vec::new();
    segments.push(segment_name("groups"));
    segments.push(PathSegment::Id(group_id));
    segments.push(segment_name("users"));
    assert(segment_texts(segments@) =~= seq!["groups"@, decimal(group_id as nat), "users"@]);
    let query: Vec<(String, String)> = Vec::new();
    assert(pairs_view(query@) =~= Seq::empty());
    endpoint(
        segments,
        query,
        "",
        "groups.add_user",
        RequestKind::Post,
        RequestBody::UserId(user_id),
    )
}

/// Removes a user from a group.
pub fn remove_user(group_id: RedmineId, user_id: RedmineId) -> (e: Endpoint)
    ensures
        e.describes(
            seq!["groups"@, decimal(group_id as nat), "users"@, decimal(user_id as nat)],
            Seq::empty(),
            ""@,
            "groups.remove_user"@,
        ),
        e.kind == RequestKind::Delete,
        e.body == RequestBody::Absent,
{
    let mut segments: Vec<PathSegment> = Vec::new();
    segments.push(segment_name("groups"));
    segments.push(PathSegment::Id(group_id));
    segments.push(segment_name("users"));
    segments.push(PathSegment::Id(user_id));
    assert(segment_texts(segments@) =~= seq![
        "groups"@,
        decimal(group_id as nat),
        "users"@,
        decimal(user_id as nat),
    ]);
    let query: Vec<(String, String)> = Vec::new();
    assert(pairs_view(query@) =~= Seq::empty());
    endpoint(segments, query, "", "groups.remove_user", RequestKind::Delete, RequestBody::Absent)
}

} // verus!
