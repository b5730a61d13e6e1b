//! JSON documents as values of the library: how text becomes a value, how
//! members and elements are looked up, and how a value is written back as
//! compact text.
use vstd::prelude::*;
use crate::runtime::json_string_literal;

verus! {

/// A JSON value. A number keeps its text and, when it is an integer in range,
/// its unsigned and signed values.
#[derive(Debug)]
pub enum JsonValue {
    Null,
    Bool(bool),
    Number { text: String, unsigned: Option<u64>, signed: Option<i64> },
    Str(String),
    Array(Vec<JsonValue>),
    Object(Vec<(String, JsonValue)>),
}

#[verifier::external_type_specification]
#[verifier::external_body]
pub struct ExSerdeJsonValue(serde_json::Value);

/// What `serde_json` reads from a text: the value, or the text of its error.
pub uninterp spec fn json_parse(text: Seq<char>) -> Result<JsonValue, Seq<char>>;

/// A `serde_json::Value` as a value of the library, member for member: a
/// number with its text (`Number`'s display) and `as_u64` / `as_i64`, an object
/// with its members in the map's order.
#[verifier::external_body]
fn json_value_from(value: &serde_json::Value) -> (r: JsonValue) {
    match value {
        serde_json::Value::Null => JsonValue::Null,
        serde_json::Value::Bool(b) => JsonValue::Bool(*b),
        serde_json::Value::Number(n) => JsonValue::Number {
            text: n.to_string(),
            unsigned: n.as_u64(),
            signed: n.as_i64(),
        },
        serde_json::Value::String(s) => JsonValue::Str(s.clone()),
        serde_json::Value::Array(items) => JsonValue::Array(items.iter().map(json_value_from).collect()),
        serde_json::Value::Object(map) => JsonValue::Object(
            map.iter().map(|(k, v)| (k.clone(), json_value_from(v))).collect(),
        ),
    }
}

/// `serde_json::from_str::<serde_json::Value>`: the value a text holds, or the
/// text of the parse error; either way a function of the text alone.
#[verifier::external_body]
pub(crate) fn parse_json_text(text: &str) -> (r: Result<JsonValue, String>)
    ensures
        match r {
            Ok(v) => json_parse(text@) == Ok::<JsonValue, Seq<char>>(v),
            Err(e) => json_parse(text@) == Err::<JsonValue, Seq<char>>(e@),
        },
{
    match serde_json::from_str::<serde_json::Value>(text) {
        Ok(value) => Ok(json_value_from(&value)),
        Err(error) => Err(error.to_string()),
    }
}

// ---------------------------------------------------------------------------
// Lookups
// ---------------------------------------------------------------------------

/// The value of the first member named `key`.
pub open spec fn member(entries: Seq<(String, JsonValue)>, key: Seq<char>) -> Option<JsonValue>
    decreases entries.len(),
{
    if entries.len() == 0 {
        None
    } else if entries[0].0@ == key {
        Some(entries[0].1)
    } else {
        member(entries.skip(1), key)
    }
}

/// The member `key` of an object; nothing for any other value.
pub open spec fn json_get(v: JsonValue, key: Seq<char>) -> Option<JsonValue> {
    match v {
        JsonValue::Object(entries) => member(entries@, key),
        _ => None,
    }
}

/// The member `key` of an optional value.
pub open spec fn opt_get(v: Option<JsonValue>, key: Seq<char>) -> Option<JsonValue> {
    match v {
        Some(x) => json_get(x, key),
        None => None,
    }
}

/// The element `i` of an array; nothing for any other value.
pub open spec fn json_index(v: Option<JsonValue>, i: int) -> Option<JsonValue> {
    match v {
        Some(JsonValue::Array(items)) => if 0 <= i < items@.len() {
            Some(items@[i])
        } else {
            None
        },
        _ => None,
    }
}

/// The text of a string value.
pub open spec fn as_text(v: Option<JsonValue>) -> Option<Seq<char>> {
    match v {
        Some(JsonValue::Str(s)) => Some(s@),
        _ => None,
    }
}

/// The elements of an array value.
pub open spec fn as_items(v: Option<JsonValue>) -> Option<Seq<JsonValue>> {
    match v {
        Some(JsonValue::Array(items)) => Some(items@),
        _ => None,
    }
}

/// The unsigned value of an integer.
pub open spec fn as_unsigned(v: Option<JsonValue>) -> Option<u64> {
    match v {
        Some(JsonValue::Number { unsigned, .. }) => unsigned,
        _ => None,
    }
}

/// The signed value of an integer.
pub open spec fn as_signed(v: Option<JsonValue>) -> Option<i64> {
    match v {
        Some(JsonValue::Number { signed, .. }) => signed,
        _ => None,
    }
}

/// The member `key` of `v`.
pub fn get<'a>(v: &'a JsonValue, key: &str) -> (r: Option<&'a JsonValue>)
    ensures
        match r {
            Some(x) => json_get(*v, key@) == Some(*x),
            None => json_get(*v, key@) is None,
        },
{
    match v {
        JsonValue::Object(entries) => {
            let mut i: usize = 0;
            assert(entries@.skip(0) =~= entries@);
            while i < entries.len()
                invariant
                    i <= entries@.len(),
                    json_get(*v, key@) == member(entries@, key@),
                    member(entries@, key@) == member(entries@.skip(i as int), key@),
                decreases entries@.len() - i,
            {
                proof {
                    assert(entries@.skip(i as int).skip(1) =~= entries@.skip(i + 1));
                    assert(entries@.skip(i as int)[0] == entries@[i as int]);
                }
                if crate::text::str_eq(entries[i].0.as_str(), key) {
                    return Some(&entries[i].1);
                }
                i = i + 1;
            }
            None
        },
        _ => None,
    }
}

/// The member `key` of an optional value.
pub fn get_opt<'a>(v: Option<&'a JsonValue>, key: &str) -> (r: Option<&'a JsonValue>)
    ensures
        match r {
            Some(x) => opt_get(opt_ref(v), key@) == Some(*x),
            None => opt_get(opt_ref(v), key@) is None,
        },
{
    match v {
        Some(x) => get(x, key),
        None => None,
    }
}

pub open spec fn opt_ref(v: Option<&JsonValue>) -> Option<JsonValue> {
    match v {
        Some(x) => Some(*x),
        None => None,
    }
}

/// The element `i` of an array value.
pub fn index<'a>(v: Option<&'a JsonValue>, i: usize) -> (r: Option<&'a JsonValue>)
    ensures
        opt_ref(r) == json_index(opt_ref(v), i as int),
{
    match v {
        Some(JsonValue::Array(items)) => {
            if i < items.len() {
                Some(&items[i])
            } else {
                None
            }
        },
        _ => None,
    }
}

/// The text of a string value.
pub fn text_of<'a>(v: Option<&'a JsonValue>) -> (r: Option<&'a str>)
    ensures
        match r {
            Some(s) => as_text(opt_ref(v)) == Some(s@),
            None => as_text(opt_ref(v)) is None,
        },
{
    match v {
        Some(JsonValue::Str(s)) => Some(s.as_str()),
        _ => None,
    }
}

/// The elements of an array value.
pub fn items_of<'a>(v: Option<&'a JsonValue>) -> (r: Option<&'a Vec<JsonValue>>)
    ensures
        match r {
            Some(items) => as_items(opt_ref(v)) == Some(items@),
            None => as_items(opt_ref(v)) is None,
        },
{
    match v {
        Some(JsonValue::Array(items)) => Some(items),
        _ => None,
    }
}

/// The unsigned value of an integer.
pub fn unsigned_of(v: Option<&JsonValue>) -> (r: Option<u64>)
    ensures
        r == as_unsigned(opt_ref(v)),
{
    match v {
        Some(JsonValue::Number { unsigned, .. }) => *unsigned,
        _ => None,
    }
}

/// The signed value of an integer.
pub fn signed_of(v: Option<&JsonValue>) -> (r: Option<i64>)
    ensures
        r == as_signed(opt_ref(v)),
{
    match v {
        Some(JsonValue::Number { signed, .. }) => *signed,
        _ => None,
    }
}

// ---------------------------------------------------------------------------
// Compact text
// ---------------------------------------------------------------------------

/// The compact text of a value: no spaces, strings quoted and escaped, members
/// in order.
pub open spec fn json_text(v: JsonValue) -> Seq<char>
    decreases v,
{
    match v {
        JsonValue::Null => "null"@,
        JsonValue::Bool(b) => if b {
            "true"@
        } else {
            "false"@
        },
        JsonValue::Number { text, .. } => text@,
        JsonValue::Str(s) => json_string_literal(s@),
        JsonValue::Array(items) => "["@ + items_text(items@) + "]"@,
        JsonValue::Object(entries) => "{"@ + entries_text(entries@) + "}"@,
    }
}

/// The elements' compact texts separated by commas.
pub open spec fn items_text(items: Seq<JsonValue>) -> Seq<char>
    decreases items,
{
    if items.len() == 0 {
        Seq::empty()
    } else {
        let last = items.last();
        let rest = items.drop_last();
        let t = json_text(last);
        if rest.len() == 0 {
            t
        } else {
            items_text(rest) + ","@ + t
        }
    }
}

/// The members as `"key":value`, separated by commas.
pub open spec fn entries_text(entries: Seq<(String, JsonValue)>) -> Seq<char>
    decreases entries,
{
    if entries.len() == 0 {
        Seq::empty()
    } else {
        let last = entries.last();
        let rest = entries.drop_last();
        let t = json_string_literal(last.0@) + ":"@ + json_text(last.1);
        if rest.len() == 0 {
            t
        } else {
            entries_text(rest) + ","@ + t
        }
    }
}

/// The compact text of a value; see `json_text`.
pub fn to_json_text(v: &JsonValue) -> (r: String)
    ensures
        r@ == json_text(*v),
    decreases v,
{
    match v {
        JsonValue::Null => crate::text::owned("null"),
        JsonValue::Bool(b) => crate::text::owned(if *b { "true" } else { "false" }),
        JsonValue::Number { text, .. } => text.clone(),
        JsonValue::Str(s) => crate::runtime::json_string(s.as_str()),
        JsonValue::Array(items) => {
            let mut out = crate::text::owned("[");
            let mut i: usize = 0;
            assert(items@.take(0) =~= Seq::<JsonValue>::empty());
            while i < items.len()
                invariant
                    i <= items@.len(),
                    *v == JsonValue::Array(*items),
                    out@ == "["@ + items_text(items@.take(i as int)),
                decreases items@.len() - i,
            {
                proof {
                    assert(items@.take(i + 1).drop_last() =~= items@.take(i as int));
                    assert(items@.take(i + 1).last() == items@[i as int]);
                }
                if i > 0 {
                    out.append(",");
                }
                proof {
                    assert(decreases_to!(*v => (*v)->Array_0));
                    assert(decreases_to!(*items => items@));
                    assert(decreases_to!(items@ => items@[i as int]));
                }
                let t = to_json_text(&items[i]);
                out.append(t.as_str());
                i = i + 1;
            }
            assert(items@.take(i as int) =~= items@);
            out.append("]");
            out
        },
        JsonValue::Object(entries) => {
            let mut out = crate::text::owned("{");
            let mut i: usize = 0;
            assert(entries@.take(0) =~= Seq::<(String, JsonValue)>::empty());
            while i < entries.len()
                invariant
                    i <= entries@.len(),
                    *v == JsonValue::Object(*entries),
                    out@ == "{"@ + entries_text(entries@.take(i as int)),
                decreases entries@.len() - i,
            {
                proof {
                    assert(entries@.take(i + 1).drop_last() =~= entries@.take(i as int));
                    assert(entries@.take(i + 1).last() == entries@[i as int]);
                }
                if i > 0 {
                    out.append(",");
                }
                let k = crate::runtime::json_string(entries[i].0.as_str());
                out.append(k.as_str());
                out.append(":");
                proof {
                    assert(decreases_to!(*v => (*v)->Object_0));
                    assert(decreases_to!(*entries => entries@));
                    assert(decreases_to!(entries@ => entries@[i as int]));
                    assert(decreases_to!(entries@[i as int] => entries@[i as int].1));
                }
                let t = to_json_text(&entries[i].1);
                out.append(t.as_str());
                i = i + 1;
            }
            assert(entries@.take(i as int) =~= entries@);
            out.append("}");
            out
        },
    }
}

} // verus!
