//! JSON documents as `serde_json` holds them, and what Verus is told of them.
//!
//! A `serde_json::Value` is opaque to the verifier. Its content is spoken of
//! through [`value_json`], which gives the document as a mathematical value.
//! Nothing in this file is proved: each function below makes one call into
//! `serde_json` and states what that call returns.

use vstd::prelude::*;

verus! {

/// A JSON document as a mathematical value.
pub enum Json {
    Null,
    Bool(bool),
    /// A number that `serde_json` holds as an integer.
    Integer(int),
    /// A number that `serde_json` holds as a float. Its value is not modelled.
    Float,
    Text(Seq<char>),
    Array(Seq<Json>),
    Object(Map<Seq<char>, Json>),
}

impl Json {
    /// The member `key` of an object.
    pub open spec fn member(self, key: Seq<char>) -> Option<Json> {
        match self {
            Json::Object(members) => if members.contains_key(key) {
                Some(members[key])
            } else {
                None
            },
            _ => None,
        }
    }

    /// The characters of a string.
    pub open spec fn text(self) -> Option<Seq<char>> {
        match self {
            Json::Text(characters) => Some(characters),
            _ => None,
        }
    }

    /// The elements of an array.
    pub open spec fn items(self) -> Option<Seq<Json>> {
        match self {
            Json::Array(items) => Some(items),
            _ => None,
        }
    }

    /// The value of an integer that fits in an `i64`.
    pub open spec fn integer(self) -> Option<int> {
        match self {
            Json::Integer(number) => if i64::MIN <= number <= i64::MAX {
                Some(number)
            } else {
                None
            },
            _ => None,
        }
    }
}

/// Makes `serde_json::Value` known to the verifier, as a type whose inside
/// it does not see.
#[verifier::external_type_specification]
#[verifier::external_body]
pub struct ExValue(serde_json::Value);

/// Makes `serde_json::Error` known to the verifier in the same way.
#[verifier::external_type_specification]
#[verifier::external_body]
pub struct ExError(serde_json::Error);

/// The document that a `serde_json::Value` holds.
pub uninterp spec fn value_json(value: serde_json::Value) -> Json;

/// The document that `serde_json::from_str` reads from `text`, or `None`
/// where it reports an error. The grammar is that crate's.
pub uninterp spec fn parsed_json(text: Seq<char>) -> Option<Json>;

/// The documents that a sequence of values holds.
pub open spec fn values_json(values: Seq<serde_json::Value>) -> Seq<Json> {
    Seq::new(values.len(), |i: int| value_json(values[i]))
}

/// Calls `serde_json::from_str` for a `Value`. What it returns depends on
/// the text alone: the value holds the document named by [`parsed_json`],
/// and an error comes exactly where that names none.
#[verifier::external_body]
pub(crate) fn parse(text: &str) -> (parsed: Result<serde_json::Value, serde_json::Error>)
    ensures
        match parsed {
            Ok(value) => parsed_json(text@) == Some(value_json(value)),
            Err(_) => parsed_json(text@) is None,
        },
{
    serde_json::from_str::<serde_json::Value>(text)
}

/// Calls `Value::get` with a string index: the member of that name where
/// the value is an object that has one, `None` otherwise.
#[verifier::external_body]
pub(crate) fn member<'a>(value: &'a serde_json::Value, key: &str) -> (found: Option<
    &'a serde_json::Value,
>)
    ensures
        match found {
            Some(inner) => value_json(*value).member(key@) == Some(value_json(*inner)),
            None => value_json(*value).member(key@) is None,
        },
{
    value.get(key)
}

/// Calls `Value::as_str`: the string's characters where the value is a
/// string, `None` otherwise.
#[verifier::external_body]
pub(crate) fn text<'a>(value: &'a serde_json::Value) -> (found: Option<&'a str>)
    ensures
        match found {
            Some(characters) => value_json(*value).text() == Some(characters@),
            None => value_json(*value).text() is None,
        },
{
    value.as_str()
}

/// Calls `Value::as_array`: the elements where the value is an array,
/// `None` otherwise.
#[verifier::external_body]
pub(crate) fn items<'a>(value: &'a serde_json::Value) -> (found: Option<
    &'a Vec<serde_json::Value>,
>)
    ensures
        match found {
            Some(elements) => value_json(*value).items() == Some(values_json(elements@)),
            None => value_json(*value).items() is None,
        },
{
    value.as_array()
}

/// Calls `Value::as_i64`: the number where the value is an integer that
/// fits in an `i64`, `None` otherwise.
#[verifier::external_body]
pub(crate) fn integer(value: &serde_json::Value) -> (found: Option<i64>)
    ensures
        match found {
            Some(number) => value_json(*value).integer() == Some(number as int),
            None => value_json(*value).integer() is None,
        },
{
    value.as_i64()
}

} // verus!
