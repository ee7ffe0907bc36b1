//! Decoding of JSON documents into typed values: which shape of document each
//! type accepts, and how the members of an object are read.

use vstd::prelude::*;
use vstd::string::*;
use crate::double::Double;
use crate::error::{ErrorView, LimelightError};
use crate::json::{
    error_text, json_of, jsons_of, member, parse_json, parse_value, value_as_array,
    value_as_bits, value_as_i64, value_as_str, value_get, value_is_null, Json,
};

verus! {

/// A type that can be read from a JSON document.
pub trait Decode: Sized + DeepView {
    /// The value that a document decodes to; nothing where the document
    /// cannot be taken for a value of this type.
    spec fn decode(j: Json) -> Option<Self::V>;

    /// Reads a value of this type. Fails, with a `JsonError`, exactly on the
    /// documents that `decode` rejects.
    fn from_json(value: &serde_json::Value) -> (r: Result<Self, LimelightError>)
        ensures
            match r {
                Ok(x) => Self::decode(json_of(*value)) == Some(x.deep_view()),
                Err(e) => e is JsonError && Self::decode(json_of(*value)) is None,
            },
    ;
}

/// The error of a document that is not what was expected.
pub open spec fn refusal(expected: Seq<char>) -> ErrorView {
    ErrorView::JsonError("invalid type, expected "@ + expected)
}

/// Builds the error of a document that is not what was expected.
pub fn refuse(expected: &str) -> (e: LimelightError)
    ensures
        e@ == refusal(expected@),
{
    LimelightError::JsonError(String::from_str("invalid type, expected ").concat(expected))
}

impl Decode for Double {
    /// Any number, integers included.
    open spec fn decode(j: Json) -> Option<Double> {
        match j {
            Json::Number(n) => Some(Double { bits: n.bits }),
            _ => None,
        }
    }

    fn from_json(value: &serde_json::Value) -> (r: Result<Self, LimelightError>) {
        match value_as_bits(value) {
            Some(bits) => Ok(Double { bits }),
            None => Err(refuse("a number")),
        }
    }
}

impl Decode for i32 {
    /// A number held as an integer, within the range of `i32`.
    open spec fn decode(j: Json) -> Option<i32> {
        match j {
            Json::Number(n) => match n.integer {
                Some(i) => if i32::MIN <= i <= i32::MAX {
                    Some(i as i32)
                } else {
                    None
                },
                None => None,
            },
            _ => None,
        }
    }

    fn from_json(value: &serde_json::Value) -> (r: Result<Self, LimelightError>) {
        match value_as_i64(value) {
            Some(i) => if -2147483648 <= i && i <= 2147483647 {
                Ok(i as i32)
            } else {
                Err(refuse("an integer of 32 bits"))
            },
            None => Err(refuse("an integer of 32 bits")),
        }
    }
}

impl Decode for String {
    /// Any string.
    open spec fn decode(j: Json) -> Option<Seq<char>> {
        match j {
            Json::String(s) => Some(s),
            _ => None,
        }
    }

    fn from_json(value: &serde_json::Value) -> (r: Result<Self, LimelightError>) {
        match value_as_str(value) {
            Some(s) => Ok(String::from_str(s)),
            None => Err(refuse("a string")),
        }
    }
}

/// The values that the documents of a sequence decode to; nothing where one
/// of them is rejected.
pub open spec fn decode_each<T: Decode>(items: Seq<Json>) -> Option<Seq<T::V>> {
    if forall|i: int| 0 <= i < items.len() ==> (#[trigger] T::decode(items[i])) is Some {
        Some(Seq::new(items.len(), |i: int| T::decode(items[i])->0))
    } else {
        None
    }
}

impl<T: Decode> Decode for Vec<T> {
    /// An array whose every element decodes; `null` is no array.
    open spec fn decode(j: Json) -> Option<Seq<T::V>> {
        match j {
            Json::Array(items) => decode_each::<T>(items),
            _ => None,
        }
    }

    fn from_json(value: &serde_json::Value) -> (r: Result<Self, LimelightError>) {
        match value_as_array(value) {
            None => Err(refuse("an array")),
            Some(items) => {
                let ghost docs = jsons_of(items@);
                let mut out: Vec<T> = Vec::new();
                let mut i: usize = 0;
                while i < items.len()
                    invariant
                        i <= items.len(),
                        out.len() == i,
                        docs == jsons_of(items@),
                        json_of(*value) == Json::Array(docs),
                        forall|k: int|
                            0 <= k < i ==> (#[trigger] T::decode(docs[k])) == Some(
                                out@[k].deep_view(),
                            ),
                    decreases items.len() - i,
                {
                    match T::from_json(&items[i]) {
                        Ok(x) => {
                            out.push(x);
                        },
                        Err(e) => {
                            assert(T::decode(docs[i as int]) is None);
                            return Err(e);
                        },
                    }
                    i += 1;
                }
                assert(out.deep_view() =~= decode_each::<T>(docs)->0);
                Ok(out)
            },
        }
    }
}

impl<T: Decode> Decode for Option<T> {
    /// `null` for an absent value, or whatever decodes as a `T`.
    open spec fn decode(j: Json) -> Option<Option<T::V>> {
        match j {
            Json::Null => Some(None),
            _ => match T::decode(j) {
                Some(x) => Some(Some(x)),
                None => None,
            },
        }
    }

    fn from_json(value: &serde_json::Value) -> (r: Result<Self, LimelightError>) {
        if value_is_null(value) {
            Ok(None)
        } else {
            match T::from_json(value) {
                Ok(x) => Ok(Some(x)),
                Err(e) => Err(e),
            }
        }
    }
}

/// What an object holds under a key that may be missing: a missing key and
/// `null` both stand for an absent value.
pub open spec fn optional_member<T: Decode>(j: Json, key: Seq<char>) -> Option<Option<T::V>> {
    match member(j, key) {
        None => Some(None),
        Some(x) => Option::<T>::decode(x),
    }
}

/// What an object holds under the key of a list: a missing key stands for
/// the empty list.
pub open spec fn list_member<T: Decode>(j: Json, key: Seq<char>) -> Option<Seq<T::V>> {
    match member(j, key) {
        None => Some(Seq::empty()),
        Some(x) => Vec::<T>::decode(x),
    }
}

/// Reads the member of `v` under `key`, which may be missing.
pub fn read_optional<T: Decode>(v: &serde_json::Value, key: &str) -> (r: Result<
    Option<T>,
    LimelightError,
>)
    ensures
        match r {
            Ok(x) => optional_member::<T>(json_of(*v), key@) == Some(x.deep_view()),
            Err(e) => e is JsonError && optional_member::<T>(json_of(*v), key@) is None,
        },
{
    match value_get(v, key) {
        None => Ok(None),
        Some(x) => Option::<T>::from_json(x),
    }
}

/// Reads the list that `v` holds under `key`, empty where the key is missing.
pub fn read_list<T: Decode>(v: &serde_json::Value, key: &str) -> (r: Result<
    Vec<T>,
    LimelightError,
>)
    ensures
        match r {
            Ok(x) => list_member::<T>(json_of(*v), key@) == Some(x.deep_view()),
            Err(e) => e is JsonError && list_member::<T>(json_of(*v), key@) is None,
        },
{
    match value_get(v, key) {
        None => {
            let out: Vec<T> = Vec::new();
            assert(out.deep_view() =~= Seq::<T::V>::empty());
            Ok(out)
        },
        Some(x) => Vec::<T>::from_json(x),
    }
}

/// What a parsed text decodes to; nothing where the text is no JSON or its
/// document is rejected.
pub open spec fn decoded<T: Decode>(document: Option<Json>) -> Option<T::V> {
    match document {
        Some(j) => T::decode(j),
        None => None,
    }
}

/// Parses a text as JSON. Fails, with a `JsonError`, exactly on the texts
/// that denote no document.
pub fn parse_document(text: &str) -> (r: Result<serde_json::Value, LimelightError>)
    ensures
        match r {
            Ok(v) => parse_json(text@) == Some(json_of(v)),
            Err(e) => e is JsonError && parse_json(text@) is None,
        },
{
    match parse_value(text) {
        Ok(v) => Ok(v),
        Err(e) => Err(LimelightError::JsonError(error_text(&e))),
    }
}

/// Parses a text as JSON and decodes the document. Fails, with a
/// `JsonError`, exactly where the text is no JSON or its document is
/// rejected.
pub fn parse<T: Decode>(text: &str) -> (r: Result<T, LimelightError>)
    ensures
        match r {
            Ok(x) => decoded::<T>(parse_json(text@)) == Some(x.deep_view()),
            Err(e) => e is JsonError && decoded::<T>(parse_json(text@)) is None,
        },
{
    match parse_document(text) {
        Ok(v) => T::from_json(&v),
        Err(e) => Err(e),
    }
}

} // verus!
