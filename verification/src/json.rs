//! A plain model of the JSON documents embedded in the scraped pages, a
//! trusted boundary to serde_json that parses page text into that model, and
//! verified serialization of the small JSON bodies the pagination calls post.

use vstd::prelude::*;

use crate::text::{dec_str, json_esc, push_json_escaped, push_u64_dec};

verus! {

/// A JSON document as plain values. Numbers keep only their unsigned 64-bit
/// reading, which is all the page metadata uses; any other number reads as
/// absent. Objects keep their fields in document order with unique keys.
#[derive(Debug)]
pub enum JsonValue {
    Null,
    Bool(bool),
    Num(Option<u64>),
    Str(String),
    Arr(Vec<JsonValue>),
    Obj(Vec<(String, JsonValue)>),
}

#[verifier::external_type_specification]
#[verifier::external_body]
pub struct ExSerdeValue(serde_json::Value);

/// What parsing a string as JSON yields: the parse is a function of the text
/// alone.
pub uninterp spec fn json_of(s: Seq<char>) -> Option<JsonValue>;

/// The contents of a parsed serde_json document, as the library's own value.
pub uninterp spec fn tree_of(v: serde_json::Value) -> JsonValue;

/// Relies on `serde_json::from_str::<serde_json::Value>`: whether a string is
/// well-formed JSON, and what it holds, depend on the string alone.
#[verifier::external_body]
fn parse_json_document(s: &str) -> (r: Option<serde_json::Value>)
    ensures
        match r {
            Some(v) => json_of(s@) == Some(tree_of(v)),
            None => json_of(s@) is None,
        },
{
    serde_json::from_str(s).ok()
}

/// Relies on `serde_json::Value`'s variants and `Number::as_u64`: rebuilds the
/// document as the library's own value, one variant arm each, moving fields.
#[verifier::external_body]
fn json_document_tree(v: &serde_json::Value) -> (r: JsonValue)
    ensures
        r == tree_of(*v),
{
    match v {
        serde_json::Value::Null => JsonValue::Null,
        serde_json::Value::Bool(b) => JsonValue::Bool(*b),
        serde_json::Value::Number(n) => JsonValue::Num(n.as_u64()),
        serde_json::Value::String(s) => JsonValue::Str(s.clone()),
        serde_json::Value::Array(a) => JsonValue::Arr(a.iter().map(json_document_tree).collect()),
        serde_json::Value::Object(m) => JsonValue::Obj(
            m.iter().map(|(k, f)| (k.clone(), json_document_tree(f))).collect(),
        ),
    }
}

/// Parses embedded page text as a JSON document.
pub fn parse_json(s: &str) -> (r: Option<JsonValue>)
    ensures
        r == json_of(s@),
{
    match parse_json_document(s) {
        Some(v) => Some(json_document_tree(&v)),
        None => None,
    }
}

/// The string contents of a JSON value, where it is a string.
pub open spec fn spec_as_str(v: &JsonValue) -> Option<Seq<char>> {
    match v {
        JsonValue::Str(s) => Some(s@),
        _ => None,
    }
}

/// The unsigned numeric reading of a JSON value, where it has one.
pub open spec fn spec_as_u64(v: &JsonValue) -> Option<u64> {
    match v {
        JsonValue::Num(n) => *n,
        _ => None,
    }
}

/// The boolean contents of a JSON value, where it is a boolean.
pub open spec fn spec_as_bool(v: &JsonValue) -> Option<bool> {
    match v {
        JsonValue::Bool(b) => Some(*b),
        _ => None,
    }
}

/// The first field of an object with the given key, searched front to back.
pub open spec fn lookup_field(fields: Seq<(String, JsonValue)>, key: Seq<char>) -> Option<
    JsonValue,
>
    decreases fields.len(),
{
    if fields.len() == 0 {
        None
    } else if fields[0].0@ == key {
        Some(fields[0].1)
    } else {
        lookup_field(fields.drop_first(), key)
    }
}

/// The field of a JSON object named `key`, where the value is an object that
/// has one.
pub open spec fn spec_get(v: &JsonValue, key: Seq<char>) -> Option<JsonValue> {
    match v {
        JsonValue::Obj(fields) => lookup_field(fields@, key),
        _ => None,
    }
}

impl JsonValue {
    /// Returns the string contents, where this value is a string.
    pub fn as_str(&self) -> (r: Option<&String>)
        ensures
            match r {
                Some(s) => spec_as_str(self) == Some(s@),
                None => spec_as_str(self) is None,
            },
    {
        match self {
            JsonValue::Str(s) => Some(s),
            _ => None,
        }
    }

    /// Returns the unsigned numeric reading, where this value has one.
    pub fn as_u64(&self) -> (r: Option<u64>)
        ensures
            r == spec_as_u64(self),
    {
        match self {
            JsonValue::Num(n) => *n,
            _ => None,
        }
    }

    /// Returns the boolean contents, where this value is a boolean.
    pub fn as_bool(&self) -> (r: Option<bool>)
        ensures
            r == spec_as_bool(self),
    {
        match self {
            JsonValue::Bool(b) => Some(*b),
            _ => None,
        }
    }

    /// Returns the elements, where this value is an array.
    pub fn as_arr(&self) -> (r: Option<&Vec<JsonValue>>)
        ensures
            match r {
                Some(a) => self matches JsonValue::Arr(inner) && a == inner,
                None => !(self is Arr),
            },
    {
        match self {
            JsonValue::Arr(a) => Some(a),
            _ => None,
        }
    }

    /// Returns the fields, where this value is an object.
    pub fn as_obj(&self) -> (r: Option<&Vec<(String, JsonValue)>>)
        ensures
            match r {
                Some(f) => self matches JsonValue::Obj(inner) && f == inner,
                None => !(self is Obj),
            },
    {
        match self {
            JsonValue::Obj(f) => Some(f),
            _ => None,
        }
    }

    /// Looks a field up by key, where this value is an object.
    pub fn get(&self, key: &str) -> (r: Option<&JsonValue>)
        ensures
            match r {
                Some(v) => spec_get(self, key@) == Some(*v),
                None => spec_get(self, key@) is None,
            },
    {
        let fields = match self {
            JsonValue::Obj(f) => f,
            _ => {
                return None;
            },
        };
        let n = fields.len();
        let mut i: usize = 0;
        assert(fields@.skip(0) =~= fields@);
        while i < n
            invariant
                0 <= i <= n,
                n == fields@.len(),
                spec_get(self, key@) == lookup_field(fields@, key@),
                lookup_field(fields@, key@) == lookup_field(fields@.skip(i as int), key@),
            decreases n - i,
        {
            assert(fields@.skip(i as int)[0] == fields@[i as int]);
            assert(fields@.skip(i as int).drop_first() =~= fields@.skip(i + 1));
            if crate::text::str_eq(fields[i].0.as_str(), key) {
                assert(lookup_field(fields@.skip(i as int), key@) == Some(fields@[i as int].1));
                return Some(&fields[i].1);
            }
            i = i + 1;
        }
        assert(fields@.skip(n as int) =~= Seq::<(String, JsonValue)>::empty());
        None
    }
}

/// The JSON body posted to the collectors endpoint, with its fields in the
/// serializer's sorted key order.
pub open spec fn collectors_body_spec(item_type: Seq<char>, item_id: u64, token: Seq<char>) -> Seq<
    char,
> {
    "{\"count\":80,\"token\":\""@ + json_esc(token) + "\",\"tralbum_id\":"@ + dec_str(
        item_id as nat,
    ) + ",\"tralbum_type\":\""@ + json_esc(item_type) + "\"}"@
}

/// Builds the JSON body for one collectors (fan thumbs) page call.
pub fn collectors_body(item_type: &str, item_id: u64, token: &str) -> (r: String)
    ensures
        r@ == collectors_body_spec(item_type@, item_id, token@),
{
    let mut out = String::from_str("{\"count\":80,\"token\":\"");
    push_json_escaped(&mut out, token);
    out.append("\",\"tralbum_id\":");
    push_u64_dec(&mut out, item_id);
    out.append(",\"tralbum_type\":\"");
    push_json_escaped(&mut out, item_type);
    out.append("\"}");
    assert(out@ =~= collectors_body_spec(item_type@, item_id, token@));
    out
}

/// The JSON body posted to the collection-items endpoint, with its fields in
/// the serializer's sorted key order.
pub open spec fn collections_body_spec(fan_id: u64, token: Seq<char>) -> Seq<char> {
    "{\"count\":20,\"fan_id\":"@ + dec_str(fan_id as nat) + ",\"older_than_token\":\""@ + json_esc(
        token,
    ) + "\"}"@
}

/// Builds the JSON body for one collection-items page call.
pub fn collections_body(fan_id: u64, token: &str) -> (r: String)
    ensures
        r@ == collections_body_spec(fan_id, token@),
{
    let mut out = String::from_str("{\"count\":20,\"fan_id\":");
    push_u64_dec(&mut out, fan_id);
    out.append(",\"older_than_token\":\"");
    push_json_escaped(&mut out, token);
    out.append("\"}");
    assert(out@ =~= collections_body_spec(fan_id, token@));
    out
}

} // verus!
