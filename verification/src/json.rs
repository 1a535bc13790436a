//! A JSON document as plain values, as far as the tool reads it.
use vstd::prelude::*;

verus! {

/// A JSON number, told apart as the JSON reader stores it: a non-negative
/// integer, a negative integer, or a number with a fraction or exponent.
#[derive(Debug, Clone)]
pub enum JsonNumber {
    PosInt(u64),
    NegInt(i64),
    Float,
}

/// A JSON value; an object keeps its members in the reader's order.
#[derive(Debug)]
pub enum JsonValue {
    Null,
    Bool(bool),
    Number(JsonNumber),
    String(String),
    Array(Vec<JsonValue>),
    Object(Vec<(String, JsonValue)>),
}

impl JsonNumber {
    /// The number as an `i64`, where it is an integer in that range.
    pub open spec fn spec_as_i64(self) -> Option<i64> {
        match self {
            JsonNumber::PosInt(n) => if n <= i64::MAX {
                Some(n as i64)
            } else {
                None
            },
            JsonNumber::NegInt(n) => Some(n),
            JsonNumber::Float => None,
        }
    }

    /// The number as an `i64`, where it is an integer in that range.
    pub fn as_i64(&self) -> (r: Option<i64>)
        ensures
            r == self.spec_as_i64(),
    {
        match self {
            JsonNumber::PosInt(n) => if *n <= 9223372036854775807u64 {
                Some(*n as i64)
            } else {
                None
            },
            JsonNumber::NegInt(n) => Some(*n),
            JsonNumber::Float => None,
        }
    }
}

impl JsonValue {
    /// The element at `index` of an array; nothing for any other value or
    /// an index past the end.
    pub open spec fn spec_get(self, index: int) -> Option<JsonValue> {
        match self {
            JsonValue::Array(items) => if 0 <= index < items@.len() {
                Some(items@[index])
            } else {
                None
            },
            _ => None,
        }
    }

    /// The element at `index` of an array; nothing for any other value or
    /// an index past the end.
    pub fn get(&self, index: usize) -> (r: Option<&JsonValue>)
        ensures
            r is Some == self.spec_get(index as int) is Some,
            r is Some ==> *r->0 == self.spec_get(index as int)->0,
    {
        match self {
            JsonValue::Array(items) => if index < items.len() {
                Some(&items[index])
            } else {
                None
            },
            _ => None,
        }
    }
}

/// The JSON reader's value type, carried through as it is.
#[verifier::external_type_specification]
#[verifier::external_body]
pub struct ExSerdeValue(serde_json::Value);

/// The document that the JSON reader reads out of `text`, as plain values;
/// nothing where `text` is not a JSON document.
pub uninterp spec fn json_document(text: Seq<char>) -> Option<JsonValue>;

/// Reads a JSON document with `serde_json::from_str` into the reader's value
/// type and takes it over as plain values. Trusted: that the result is a
/// function of the text alone (the reader has no state, and keeps the members
/// of an object in key order), named `json_document`; nothing is claimed of
/// what the document holds.
#[verifier::external_body]
pub fn read_json(text: &str) -> (doc: Option<JsonValue>)
    ensures
        doc == json_document(text@),
{
    serde_json::from_str::<serde_json::Value>(text).ok().map(json_from_serde)
}

/// Takes a value of the JSON reader over as plain values, variant by
/// variant; a number is told apart by `as_u64` and `as_i64` as the reader
/// stores it. Trusted with no claim on its result; `read_json` is the only
/// caller.
#[verifier::external_body]
fn json_from_serde(value: serde_json::Value) -> JsonValue {
    match value {
        serde_json::Value::Null => JsonValue::Null,
        serde_json::Value::Bool(b) => JsonValue::Bool(b),
        serde_json::Value::Number(n) => JsonValue::Number(match (n.as_u64(), n.as_i64()) {
            (Some(u), _) => JsonNumber::PosInt(u),
            (None, Some(i)) => JsonNumber::NegInt(i),
            _ => JsonNumber::Float,
        }),
        serde_json::Value::String(s) => JsonValue::String(s),
        serde_json::Value::Array(a) => JsonValue::Array(a.into_iter().map(json_from_serde).collect()),
        serde_json::Value::Object(m) => JsonValue::Object(m.into_iter().map(|(k, v)| (k, json_from_serde(v))).collect()),
    }
}

} // verus!
