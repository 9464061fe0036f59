use vstd::prelude::*;

use crate::json::JsonValue;
use crate::text::{decimal, decimal_string};

verus! {

/// A list of query pairs, as characters.
pub open spec fn pairs_view(v: Seq<(String, String)>) -> Seq<(Seq<char>, Seq<char>)> {
    v.map_values(|p: (String, String)| (p.0@, p.1@))
}

/// The key of the member `key` of an object found under `prefix`: the member's
/// own name at the top level, `prefix[key]` below it.
pub open spec fn member_key(prefix: Seq<char>, key: Seq<char>) -> Seq<char> {
    if prefix.len() == 0 {
        key
    } else {
        prefix + "["@ + key + "]"@
    }
}

/// The key of the item at `index` of an array found under `prefix`.
pub open spec fn item_key(prefix: Seq<char>, index: nat) -> Seq<char> {
    prefix + "["@ + decimal(index) + "]"@
}

/// The key/value pairs of `value` found under `prefix`: objects and arrays
/// are walked in order, strings keep their text, numbers are written as they
/// are printed, booleans become `"1"` or `"0"`, and `null` gives nothing.
pub open spec fn flatten(prefix: Seq<char>, value: JsonValue) -> Seq<(Seq<char>, Seq<char>)>
    decreases value,
{
    match value {
        JsonValue::Object(members) => flatten_members(prefix, members@),
        JsonValue::Array(items) => flatten_items(prefix, items@),
        JsonValue::String(s) => seq![(prefix, s@)],
        JsonValue::Number(n) => seq![(prefix, n.text@)],
        JsonValue::Bool(b) => seq![(prefix, if b { "1"@ } else { "0"@ })],
        JsonValue::Null => Seq::empty(),
    }
}

/// The pairs of the members of an object found under `prefix`.
pub open spec fn flatten_members(prefix: Seq<char>, members: Seq<(String, JsonValue)>) -> Seq<
    (Seq<char>, Seq<char>),
>
    decreases members,
{
    if members.len() == 0 {
        Seq::empty()
    } else {
        let last = members[members.len() - 1];
        flatten_members(prefix, members.subrange(0, members.len() - 1)) + flatten(
            member_key(prefix, last.0@),
            last.1,
        )
    }
}

/// The pairs of the items of an array found under `prefix`.
pub open spec fn flatten_items(prefix: Seq<char>, items: Seq<JsonValue>) -> Seq<
    (Seq<char>, Seq<char>),
>
    decreases items,
{
    if items.len() == 0 {
        Seq::empty()
    } else {
        flatten_items(prefix, items.subrange(0, items.len() - 1)) + flatten(
            item_key(prefix, (items.len() - 1) as nat),
            items[items.len() - 1],
        )
    }
}

/// Viewing a list with one more pair adds that pair's view.
pub proof fn lemma_pairs_view_push(a: Seq<(String, String)>, p: (String, String))
    ensures
        pairs_view(a.push(p)) == pairs_view(a).push((p.0@, p.1@)),
{
    assert(pairs_view(a.push(p)) =~= pairs_view(a).push((p.0@, p.1@)));
}

proof fn lemma_pairs_view_append(a: Seq<(String, String)>, b: Seq<(String, String)>)
    ensures
        pairs_view(a + b) == pairs_view(a) + pairs_view(b),
{
    assert(pairs_view(a + b) =~= pairs_view(a) + pairs_view(b));
}

fn child_key(prefix: &String, key: &String) -> (r: String)
    ensures
        r@ == member_key(prefix@, key@),
{
    if prefix.as_str().is_empty() {
        key.clone()
    } else {
        prefix.clone().concat("[").concat(key.as_str()).concat("]")
    }
}

fn index_key(prefix: &String, index: usize) -> (r: String)
    ensures
        r@ == item_key(prefix@, index as nat),
{
    let digits = decimal_string(index as u64);
    prefix.clone().concat("[").concat(digits.as_str()).concat("]")
}

fn single(key: &String, value: String) -> (r: Vec<(String, String)>)
    ensures
        pairs_view(r@) == seq![(key@, value@)],
{
    let mut r: Vec<(String, String)> = Vec::new();
    r.push((key.clone(), value));
    assert(pairs_view(r@) =~= seq![(key@, value@)]);
    r
}

/// Flattens `value` into key/value pairs under `prefix`.
pub fn flatten_value(prefix: &String, value: &JsonValue) -> (r: Vec<(String, String)>)
    ensures
        pairs_view(r@) == flatten(prefix@, *value),
    decreases value,
{
    match value {
        JsonValue::Object(members) => {
            let mut result: Vec<(String, String)> = Vec::new();
            let n = members.len();
            let mut i: usize = 0;
            while i < n
                invariant
                    n == members@.len(),
                    i <= n,
                    *value == JsonValue::Object(*members),
                    pairs_view(result@) == flatten_members(
                        prefix@,
                        members@.subrange(0, i as int),
                    ),
                decreases n - i,
            {
                let key = child_key(prefix, &members[i].0);
                proof {
                    assert(decreases_to!(*value => value->Object_0));
                    assert(value->Object_0 == *members);
                    assert(decreases_to!(*members => members@));
                    assert(decreases_to!(members@ => members@[i as int]));
                    assert(decreases_to!(members@[i as int] => members@[i as int].1));
                    assert(decreases_to!(*value => members@[i as int].1));
                }
                let mut sub = flatten_value(&key, &members[i].1);
                proof {
                    let taken = members@.subrange(0, i + 1);
                    assert(taken.subrange(0, i as int) =~= members@.subrange(0, i as int));
                    assert(taken[i as int] == members@[i as int]);
                    lemma_pairs_view_append(result@, sub@);
                }
                result.append(&mut sub);
                i = i + 1;
            }
            assert(members@.subrange(0, n as int) =~= members@);
            result
        },
        JsonValue::Array(items) => {
            let mut result: Vec<(String, String)> = Vec::new();
            let n = items.len();
            let mut i: usize = 0;
            while i < n
                invariant
                    n == items@.len(),
                    i <= n,
                    *value == JsonValue::Array(*items),
                    pairs_view(result@) == flatten_items(prefix@, items@.subrange(0, i as int)),
                decreases n - i,
            {
                let key = index_key(prefix, i);
                proof {
                    assert(decreases_to!(*value => value->Array_0));
                    assert(value->Array_0 == *items);
                    assert(decreases_to!(*items => items@));
                    assert(decreases_to!(items@ => items@[i as int]));
                    assert(decreases_to!(*value => items@[i as int]));
                }
                let mut sub = flatten_value(&key, &items[i]);
                proof {
                    let taken = items@.subrange(0, i + 1);
                    assert(taken.subrange(0, i as int) =~= items@.subrange(0, i as int));
                    assert(taken[i as int] == items@[i as int]);
                    lemma_pairs_view_append(result@, sub@);
                }
                result.append(&mut sub);
                i = i + 1;
            }
            assert(items@.subrange(0, n as int) =~= items@);
            result
        },
        JsonValue::String(s) => single(prefix, s.clone()),
        JsonValue::Number(num) => single(prefix, num.text.clone()),
        JsonValue::Bool(b) => {
            if *b {
                single(prefix, "1".to_owned())
            } else {
                single(prefix, "0".to_owned())
            }
        },
        JsonValue::Null => {
            let r: Vec<(String, String)> = Vec::new();
            assert(pairs_view(r@) =~= Seq::empty());
            r
        },
    }
}

/// Turns a filter, given as the JSON document it serialises to, into
/// key/value pairs for a query string. No filter gives no pairs.
pub fn filter_to_query(filter: Option<&JsonValue>) -> (r: Vec<(String, String)>)
    ensures
        match filter {
            None => r@.len() == 0,
            Some(f) => pairs_view(r@) == flatten(Seq::empty(), *f),
        },
{
    match filter {
        None => Vec::new(),
        Some(f) => {
            let prefix = String::new();
            flatten_value(&prefix, f)
        },
    }
}

} // verus!
