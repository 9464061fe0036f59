use vstd::prelude::*;

verus! {

/// A JSON number as the library reads it: its text as the JSON writer prints
/// it, and its value when it is a non-negative integer that fits in a `u64`.
#[derive(Debug, Clone)]
pub struct JsonNumber {
    /// The number as text (for example `"42"`, `"-3"` or `"1.5"`).
    pub text: String,
    /// The value, when the number is an integer in `0..=u64::MAX`.
    pub as_u64: Option<u64>,
}

/// A JSON document, holding what the library reads of a parsed response or
/// of a serialised filter. An object keeps its members in document order.
#[derive(Debug)]
pub enum JsonValue {
    /// `null`.
    Null,
    /// `true` or `false`.
    Bool(bool),
    /// A number.
    Number(JsonNumber),
    /// A string.
    String(String),
    /// An array.
    Array(Vec<JsonValue>),
    /// An object, as its members in order.
    Object(Vec<(String, JsonValue)>),
}

/// The value of the first member named `key` among `members`.
pub open spec fn member_value(members: Seq<(String, JsonValue)>, key: Seq<char>) -> Option<
    JsonValue,
>
    decreases members.len(),
{
    if members.len() == 0 {
        None
    } else if members[0].0@ == key {
        Some(members[0].1)
    } else {
        member_value(members.subrange(1, members.len() as int), key)
    }
}

/// The member `key` of `v` when `v` is an object that has one.
pub open spec fn json_get(v: JsonValue, key: Seq<char>) -> Option<JsonValue> {
    match v {
        JsonValue::Object(members) => member_value(members@, key),
        _ => None,
    }
}

/// The value of `v` when it is a number that fits in a `u64`.
pub open spec fn json_as_u64(v: JsonValue) -> Option<u64> {
    match v {
        JsonValue::Number(n) => n.as_u64,
        _ => None,
    }
}

/// The characters of `v` when it is a string.
pub open spec fn json_text(v: JsonValue) -> Option<Seq<char>> {
    match v {
        JsonValue::String(s) => Some(s@),
        _ => None,
    }
}

/// The strings of `v` when it is an array of strings only.
pub open spec fn json_string_list(v: JsonValue) -> Option<Seq<Seq<char>>> {
    match v {
        JsonValue::Array(items) => if forall|i: int|
            0 <= i < items@.len() ==> (#[trigger] json_text(items@[i])) is Some {
            Some(items@.map_values(|x: JsonValue| json_text(x)->0))
        } else {
            None
        },
        _ => None,
    }
}

impl JsonValue {
    /// The member `key`, when `self` is an object that has one; the first
    /// such member when there are several.
    pub fn get(&self, key: &str) -> (r: Option<&JsonValue>)
        ensures
            match r {
                Some(v) => json_get(*self, key@) == Some(*v),
                None => json_get(*self, key@) is None,
            },
    {
        match self {
            JsonValue::Object(members) => {
                let k = key.to_owned();
                let n = members.len();
                let mut i: usize = 0;
                assert(members@.subrange(0, n as int) =~= members@);
                while i < n
                    invariant
                        n == members@.len(),
                        i <= n,
                        k@ == key@,
                        json_get(*self, key@) == member_value(members@, key@),
                        member_value(members@, key@) == member_value(
                            members@.subrange(i as int, n as int),
                            key@,
                        ),
                    decreases n - i,
                {
                    let ghost rest = members@.subrange(i as int, n as int);
                    assert(rest.subrange(1, rest.len() as int) =~= members@.subrange(
                        i + 1,
                        n as int,
                    ));
                    assert(rest[0] == members@[i as int]);
                    if members[i].0 == k {
                        return Some(&members[i].1);
                    }
                    i = i + 1;
                }
                None
            },
            _ => None,
        }
    }

    /// The value, when `self` is a number that fits in a `u64`.
    pub fn as_u64(&self) -> (r: Option<u64>)
        ensures
            r == json_as_u64(*self),
    {
        match self {
            JsonValue::Number(n) => n.as_u64,
            _ => None,
        }
    }

    /// The strings, when `self` is an array whose items are all strings.
    pub fn as_string_list(&self) -> (r: Option<Vec<String>>)
        ensures
            match r {
                Some(l) => json_string_list(*self) == Some(l@.map_values(|t: String| t@)),
                None => json_string_list(*self) is None,
            },
    {
        match self {
            JsonValue::Array(items) => {
                let mut out: Vec<String> = Vec::new();
                let n = items.len();
                let mut i: usize = 0;
                while i < n
                    invariant
                        n == items@.len(),
                        i <= n,
                        out@.len() == i,
                        *self == JsonValue::Array(*items),
                        forall|j: int|
                            0 <= j < i ==> json_text(#[trigger] items@[j]) == Some(out@[j]@),
                    decreases n - i,
                {
                    match &items[i] {
                        JsonValue::String(s) => {
                            out.push(s.clone());
                        },
                        _ => {
                            assert(json_text(items@[i as int]) is None);
                            return None;
                        },
                    }
                    i = i + 1;
                }
                assert(out@.map_values(|t: String| t@) =~= items@.map_values(
                    |x: JsonValue| json_text(x)->0,
                ));
                Some(out)
            },
            _ => None,
        }
    }
}

/// Whether `a` and `b` are the same document: same kind, same scalars, same
/// items and members in the same order.
pub open spec fn same_json(a: JsonValue, b: JsonValue) -> bool
    decreases a,
{
    match (a, b) {
        (JsonValue::Null, JsonValue::Null) => true,
        (JsonValue::Bool(x), JsonValue::Bool(y)) => x == y,
        (JsonValue::Number(x), JsonValue::Number(y)) => x.text@ == y.text@ && x.as_u64 == y.as_u64,
        (JsonValue::String(x), JsonValue::String(y)) => x@ == y@,
        (JsonValue::Array(x), JsonValue::Array(y)) => same_items(x@, y@),
        (JsonValue::Object(x), JsonValue::Object(y)) => same_members(x@, y@),
        _ => false,
    }
}

/// Whether two lists of items are the same, item by item.
pub open spec fn same_items(a: Seq<JsonValue>, b: Seq<JsonValue>) -> bool
    decreases a,
{
    &&& a.len() == b.len()
    &&& a.len() > 0 ==> {
        &&& same_items(a.subrange(0, a.len() - 1), b.subrange(0, b.len() - 1))
        &&& same_json(a[a.len() - 1], b[b.len() - 1])
    }
}

/// Whether two lists of members are the same, member by member.
pub open spec fn same_members(a: Seq<(String, JsonValue)>, b: Seq<(String, JsonValue)>) -> bool
    decreases a,
{
    &&& a.len() == b.len()
    &&& a.len() > 0 ==> {
        &&& same_members(a.subrange(0, a.len() - 1), b.subrange(0, b.len() - 1))
        &&& a[a.len() - 1].0@ == b[b.len() - 1].0@
        &&& same_json(a[a.len() - 1].1, b[b.len() - 1].1)
    }
}

impl JsonValue {
    /// A copy of the document.
    pub fn deep_copy(&self) -> (r: JsonValue)
        ensures
            same_json(*self, r),
        decreases self,
    {
        match self {
            JsonValue::Null => JsonValue::Null,
            JsonValue::Bool(b) => JsonValue::Bool(*b),
            JsonValue::Number(n) => JsonValue::Number(
                JsonNumber { text: n.text.clone(), as_u64: n.as_u64 },
            ),
            JsonValue::String(s) => JsonValue::String(s.clone()),
            JsonValue::Array(items) => {
                let mut out: Vec<JsonValue> = Vec::new();
                let n = items.len();
                let mut i: usize = 0;
                while i < n
                    invariant
                        n == items@.len(),
                        i <= n,
                        *self == JsonValue::Array(*items),
                        out@.len() == i,
                        same_items(items@.subrange(0, i as int), out@),
                    decreases n - i,
                {
                    proof {
                        assert(decreases_to!(*self => self->Array_0));
                        assert(decreases_to!(*items => items@));
                        assert(decreases_to!(items@ => items@[i as int]));
                    }
                    let item = items[i].deep_copy();
                    let ghost before = out@;
                    out.push(item);
                    proof {
                        let a = items@.subrange(0, i + 1);
                        assert(a.subrange(0, i as int) =~= items@.subrange(0, i as int));
                        assert(out@.subrange(0, i as int) =~= before);
                    }
                    i = i + 1;
                }
                assert(items@.subrange(0, n as int) =~= items@);
                JsonValue::Array(out)
            },
            JsonValue::Object(members) => {
                let mut out: Vec<(String, JsonValue)> = Vec::new();
                let n = members.len();
                let mut i: usize = 0;
                while i < n
                    invariant
                        n == members@.len(),
                        i <= n,
                        *self == JsonValue::Object(*members),
                        out@.len() == i,
                        same_members(members@.subrange(0, i as int), out@),
                    decreases n - i,
                {
                    proof {
                        assert(decreases_to!(*self => self->Object_0));
                        assert(decreases_to!(*members => members@));
                        assert(decreases_to!(members@ => members@[i as int]));
                        assert(decreases_to!(members@[i as int] => members@[i as int].1));
                    }
                    let value = members[i].1.deep_copy();
                    let ghost before = out@;
                    out.push((members[i].0.clone(), value));
                    proof {
                        let a = members@.subrange(0, i + 1);
                        assert(a.subrange(0, i as int) =~= members@.subrange(0, i as int));
                        assert(out@.subrange(0, i as int) =~= before);
                    }
                    i = i + 1;
                }
                assert(members@.subrange(0, n as int) =~= members@);
                JsonValue::Object(out)
            },
        }
    }
}

impl Clone for JsonValue {
    fn clone(&self) -> (r: Self)
        ensures
            same_json(*self, r),
    {
        self.deep_copy()
    }
}

/// A parsed JSON value of `serde_json`, carried through unchanged.
#[verifier::external_type_specification]
#[verifier::external_body]
pub struct ExSerdeJsonValue(serde_json::Value);

/// Name for what `serde_json::from_str::<serde_json::Value>` makes of a text,
/// as the library's document: `None` when the text is not JSON. The parse
/// depends on the text alone; an object's members come in the order of
/// `serde_json`'s map (by key), the last of repeated keys kept.
pub uninterp spec fn json_parse(text: Seq<char>) -> Option<JsonValue>;

/// Converts a parsed `serde_json::Value` into the library's document, variant
/// for variant: a number keeps its printed text and its `u64` value, if any.
#[verifier::external_body]
fn json_value_of(v: serde_json::Value) -> JsonValue {
    match v {
        serde_json::Value::Null => JsonValue::Null,
        serde_json::Value::Bool(b) => JsonValue::Bool(b),
        serde_json::Value::Number(n) => JsonValue::Number(
            JsonNumber { text: n.to_string(), as_u64: n.as_u64() },
        ),
        serde_json::Value::String(t) => JsonValue::String(t),
        serde_json::Value::Array(a) => JsonValue::Array(a.into_iter().map(json_value_of).collect()),
        serde_json::Value::Object(m) => JsonValue::Object(
            m.into_iter().map(|(k, x)| (k, json_value_of(x))).collect(),
        ),
    }
}

/// Calls `serde_json::from_str::<serde_json::Value>` on `text` and converts
/// the value into the library's document. The document is named by
/// `json_parse`; the error, when the text is not JSON, is passed on.
#[verifier::external_body]
pub(crate) fn parse_json(text: &str) -> (r: Result<JsonValue, serde_json::Error>)
    ensures
        match r {
            Ok(d) => json_parse(text@) == Some(d),
            Err(_) => json_parse(text@) is None,
        },
{
    serde_json::from_str::<serde_json::Value>(text).map(json_value_of)
}

} // verus!
