//! The boundary to `serde_json`: a mathematical model of a JSON document and
//! the trusted contracts of the few `serde_json` calls that the decoders make.
//! Everything above this file is proved from the contracts stated here.

use vstd::prelude::*;

verus! {

/// What is known of a JSON number: its value where it is held as an integer
/// of 64 bits, and the bit pattern of its reading as an IEEE 754 double.
pub ghost struct JsonNumber {
    pub integer: Option<int>,
    pub bits: u64,
}

/// A JSON document as a mathematical value.
pub ghost enum Json {
    Null,
    Bool(bool),
    Number(JsonNumber),
    String(Seq<char>),
    Array(Seq<Json>),
    Object(Map<Seq<char>, Json>),
}

/// The member of an object under `key`; nothing where `j` is no object or
/// has no such member.
pub open spec fn member(j: Json, key: Seq<char>) -> Option<Json> {
    match j {
        Json::Object(m) => if m.contains_key(key) {
            Some(m[key])
        } else {
            None
        },
        _ => None,
    }
}

#[verifier::external_type_specification]
#[verifier::external_body]
pub struct ExValue(serde_json::Value);

#[verifier::external_type_specification]
#[verifier::external_body]
pub struct ExJsonError(serde_json::Error);

/// The document that a `serde_json::Value` holds.
pub uninterp spec fn json_of(v: serde_json::Value) -> Json;

/// The document that a text denotes to `serde_json::from_str`, where it
/// denotes one.
pub uninterp spec fn parse_json(text: Seq<char>) -> Option<Json>;

/// The documents that the values of a vector hold, in order.
pub open spec fn jsons_of(items: Seq<serde_json::Value>) -> Seq<Json> {
    Seq::new(items.len(), |i: int| json_of(items[i]))
}

/// Trusted: `serde_json::from_str` at `Value` is a function of the text. It
/// returns the document that the text denotes, or an error where the text
/// denotes none.
#[verifier::external_body]
pub(crate) fn parse_value(text: &str) -> (r: Result<serde_json::Value, serde_json::Error>)
    ensures
        match r {
            Ok(v) => parse_json(text@) == Some(json_of(v)),
            Err(_) => parse_json(text@) is None,
        },
{
    serde_json::from_str::<serde_json::Value>(text)
}

/// Trusted: the description that `serde_json::Error` gives of itself through
/// `to_string`. Nothing is claimed of the text.
#[verifier::external_body]
pub(crate) fn error_text(e: &serde_json::Error) -> (r: String) {
    e.to_string()
}

/// Trusted: `serde_json::Value::get` with a string key returns the member of
/// an object under that key, and nothing for a missing key or a value that is
/// no object.
#[verifier::external_body]
pub(crate) fn value_get<'a>(v: &'a serde_json::Value, key: &str) -> (r: Option<
    &'a serde_json::Value,
>)
    ensures
        match r {
            Some(x) => member(json_of(*v), key@) == Some(json_of(*x)),
            None => member(json_of(*v), key@) is None,
        },
{
    v.get(key)
}

/// Trusted: `serde_json::Value::is_object` tells an object from the rest.
#[verifier::external_body]
pub(crate) fn value_is_object(v: &serde_json::Value) -> (r: bool)
    ensures
        r == (json_of(*v) is Object),
{
    v.is_object()
}

/// Trusted: `serde_json::Value::is_null` tells `null` from the rest.
#[verifier::external_body]
pub(crate) fn value_is_null(v: &serde_json::Value) -> (r: bool)
    ensures
        r == (json_of(*v) is Null),
{
    v.is_null()
}

/// Trusted: `serde_json::Value::as_f64` returns a number's reading as a
/// double, handed on here as the double's bit pattern (`f64::to_bits`), and
/// nothing for a value that is no number.
#[verifier::external_body]
pub(crate) fn value_as_bits(v: &serde_json::Value) -> (r: Option<u64>)
    ensures
        r == match json_of(*v) {
            Json::Number(n) => Some(n.bits),
            _ => None,
        },
{
    match v.as_f64() {
        Some(x) => Some(x.to_bits()),
        None => None,
    }
}

/// Trusted: `serde_json::Value::as_i64` returns a number that is held as an
/// integer and lies in the range of `i64`, and nothing for any other value.
#[verifier::external_body]
pub(crate) fn value_as_i64(v: &serde_json::Value) -> (r: Option<i64>)
    ensures
        match r {
            Some(i) => json_of(*v) matches Json::Number(n) && n.integer == Some(i as int),
            None => !(json_of(*v) matches Json::Number(n) && n.integer matches Some(i)
                && i64::MIN <= i <= i64::MAX),
        },
{
    v.as_i64()
}

/// Trusted: `serde_json::Value::as_str` returns the characters of a string,
/// and nothing for a value that is no string.
#[verifier::external_body]
pub(crate) fn value_as_str<'a>(v: &'a serde_json::Value) -> (r: Option<&'a str>)
    ensures
        match r {
            Some(s) => json_of(*v) == Json::String(s@),
            None => !(json_of(*v) is String),
        },
{
    v.as_str()
}

/// Trusted: `serde_json::Value::as_array` returns the elements of an array,
/// in order, and nothing for a value that is no array.
#[verifier::external_body]
pub(crate) fn value_as_array<'a>(v: &'a serde_json::Value) -> (r: Option<
    &'a Vec<serde_json::Value>,
>)
    ensures
        match r {
            Some(items) => json_of(*v) == Json::Array(jsons_of(items@)),
            None => !(json_of(*v) is Array),
        },
{
    v.as_array()
}

} // verus!
