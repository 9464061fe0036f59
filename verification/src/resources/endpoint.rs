//! What one operation of a resource sends: the path of its endpoint, its
//! query, the member of the answer that holds the result, and its name.

use vstd::prelude::*;

use crate::http::client::{
    endpoint_path, join_commas, resource_path, segment_text, segment_texts, PathSegment,
};
use crate::json::{JsonNumber, JsonValue};
use crate::text::{decimal, decimal_string};
use crate::utils::query::{flatten, pairs_view};

verus! {

/// How a request is sent and what is read of its answer.
#[derive(Debug, Clone, Copy, PartialEq, Eq, Structural)]
pub enum RequestKind {
    /// A GET whose result is the member `key` of the answer.
    GetOne,
    /// A GET of one page: the items are the member `key` of the answer, with
    /// the total number of records.
    GetPage,
    /// GETs of every page in turn, gathering the member `key` of each.
    GetAll,
    /// A POST of the body whose result is the member `key` of the answer.
    PostOne,
    /// A POST of the body whose answer is read but not used.
    Post,
    /// A PUT of the body whose answer is read but not used.
    Put,
    /// A POST of the raw content of a file whose result is the member `key`
    /// of the answer.
    Upload,
    /// A DELETE whose answer is not read.
    Delete,
}

/// The JSON body of a request.
pub enum RequestBody {
    /// No JSON body.
    Absent,
    /// The operation's payload, as the one member of an object, named by the
    /// string (such as `{"issue": {...}}`).
    Wrapped(String),
    /// The empty object `{}`.
    EmptyObject,
    /// The object `{"user_id": id}`.
    UserId(u64),
    /// The object `{"journal": {"notes": ""}}`, which clears a journal's notes.
    ClearNotes,
}

impl RequestBody {
    /// The body wraps the payload in the member `member`.
    pub open spec fn wraps(self, member: Seq<char>) -> bool {
        self matches RequestBody::Wrapped(m) && m@ == member
    }
}

/// The value of the one member of `d`, when `d` is an object whose only
/// member is `key`.
pub open spec fn single_member(d: JsonValue, key: Seq<char>) -> Option<JsonValue> {
    match d {
        JsonValue::Object(m) => if m@.len() == 1 && m@[0].0@ == key {
            Some(m@[0].1)
        } else {
            None
        },
        _ => None,
    }
}

/// Whether `d` is the document sent for the body `body`, given the document
/// `payload` that the operation's payload serialises to.
pub open spec fn is_body_document(
    body: RequestBody,
    payload: JsonValue,
    d: Option<JsonValue>,
) -> bool {
    match body {
        RequestBody::Absent => d is None,
        RequestBody::Wrapped(member) => d matches Some(v) && single_member(v, member@) == Some(
            payload,
        ),
        RequestBody::EmptyObject => d matches Some(JsonValue::Object(m)) && m@.len() == 0,
        RequestBody::UserId(id) => d matches Some(v) && single_member(v, "user_id"@) matches Some(
            JsonValue::Number(n),
        ) && n.as_u64 == Some(id) && n.text@ == decimal(id as nat),
        RequestBody::ClearNotes => d matches Some(v) && single_member(v, "journal"@) matches Some(
            j,
        ) && single_member(j, "notes"@) matches Some(JsonValue::String(t)) && t@.len() == 0,
    }
}

/// The document sent for the body `body`, given the document `payload` that
/// the operation's payload serialises to (which only a `Wrapped` body uses).
pub fn request_document(body: &RequestBody, payload: JsonValue) -> (d: Option<JsonValue>)
    ensures
        is_body_document(*body, payload, d),
{
    match body {
        RequestBody::Absent => None,
        RequestBody::Wrapped(member) => {
            let mut m: Vec<(String, JsonValue)> = Vec::new();
            m.push((member.clone(), payload));
            Some(JsonValue::Object(m))
        },
        RequestBody::EmptyObject => Some(JsonValue::Object(Vec::new())),
        RequestBody::UserId(id) => {
            let n = JsonNumber { text: decimal_string(*id), as_u64: Some(*id) };
            let mut m: Vec<(String, JsonValue)> = Vec::new();
            m.push(("user_id".to_owned(), JsonValue::Number(n)));
            Some(JsonValue::Object(m))
        },
        RequestBody::ClearNotes => {
            let mut notes: Vec<(String, JsonValue)> = Vec::new();
            notes.push(("notes".to_owned(), JsonValue::String(String::new())));
            let mut m: Vec<(String, JsonValue)> = Vec::new();
            m.push(("journal".to_owned(), JsonValue::Object(notes)));
            Some(JsonValue::Object(m))
        },
    }
}

/// The request of one operation of a resource, before it is sent.
pub struct Endpoint {
    /// The path of the JSON endpoint, such as `/issues/123.json`.
    pub path: String,
    /// The query pairs, in the order in which they are sent.
    pub query: Vec<(String, String)>,
    /// The member of the answer that holds the result, such as `issue`;
    /// empty where the operation reads no result.
    pub key: String,
    /// The name of the operation, such as `issues.get`, carried by the errors
    /// it gives.
    pub operation: String,
    /// How the request is sent and what is read of its answer.
    pub kind: RequestKind,
    /// The JSON body of the request.
    pub body: RequestBody,
}

impl Endpoint {
    /// The endpoint is the one made of these path parts, this query, this
    /// result key and this operation name.
    pub open spec fn describes(
        self,
        parts: Seq<Seq<char>>,
        query: Seq<(Seq<char>, Seq<char>)>,
        key: Seq<char>,
        operation: Seq<char>,
    ) -> bool {
        &&& self.path@ == endpoint_path(parts)
        &&& pairs_view(self.query@) == query
        &&& self.key@ == key
        &&& self.operation@ == operation
    }
}

/// The query that asks for the associations `names`.
pub open spec fn include_pairs(names: Seq<Seq<char>>) -> Seq<(Seq<char>, Seq<char>)> {
    seq![("include"@, join_commas(names))]
}

/// The query of a category deletion that may reassign its issues.
pub open spec fn reassign_pairs(reassign_to_id: Option<u64>) -> Seq<(Seq<char>, Seq<char>)> {
    match reassign_to_id {
        Some(id) => seq![("reassign_to_id"@, decimal(id as nat))],
        None => Seq::empty(),
    }
}

/// The query of a listing under an optional filter document.
pub open spec fn filter_pairs(filter: Option<&JsonValue>) -> Seq<(Seq<char>, Seq<char>)> {
    match filter {
        Some(f) => flatten(Seq::empty(), *f),
        None => Seq::empty(),
    }
}

/// A path segment that is the name `s`, as it is.
pub fn segment_name(s: &str) -> (seg: PathSegment)
    ensures
        seg is Name,
        segment_text(seg) == s@,
{
    PathSegment::Name(s.to_owned())
}

/// The endpoint made of these segments, this query, this result key, this
/// operation name, sent in this way with this body.
pub fn endpoint(
    segments: Vec<PathSegment>,
    query: Vec<(String, String)>,
    key: &str,
    operation: &str,
    kind: RequestKind,
    body: RequestBody,
) -> (e: Endpoint)
    ensures
        e.describes(segment_texts(segments@), pairs_view(query@), key@, operation@),
        e.kind == kind,
        e.body == body,
{
    Endpoint {
        path: resource_path(&segments),
        query,
        key: key.to_owned(),
        operation: operation.to_owned(),
        kind,
        body,
    }
}

} // verus!
