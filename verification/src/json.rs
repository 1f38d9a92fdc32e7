//! JSON as `serde_json` reads it. A parsed document stays a
//! `serde_json::Value`; what it holds is known here only through the names
//! below, one for each question that the decoder asks of it. Nothing in
//! this file is proved: each function states what the call in its body
//! returns.

use serde_json::Value;
use vstd::prelude::*;

verus! {

/// `serde_json::Value`, a parsed JSON document or a part of one. What it holds
/// is told by [`json_member`], [`json_text`], [`json_unsigned`],
/// [`json_items`] and [`json_is_null`].
#[verifier::external_type_specification]
#[verifier::external_body]
pub struct ExJsonValue(Value);

/// The document that `serde_json::from_str` reads from a text, where it reads
/// one.
pub uninterp spec fn json_document(text: Seq<char>) -> Option<Value>;

/// The member that `Value::get` finds under a key: of an object that has the
/// key, the value stored there; of anything else, none.
pub uninterp spec fn json_member(value: Value, key: Seq<char>) -> Option<Value>;

/// The text that `Value::as_str` gives: of a JSON string, its content; of
/// anything else, none.
pub uninterp spec fn json_text(value: Value) -> Option<Seq<char>>;

/// The number that `Value::as_u64` gives: of a JSON number that was read as
/// an integer from 0 to 2^64 - 1, that integer; of anything else, none.
pub uninterp spec fn json_unsigned(value: Value) -> Option<u64>;

/// The elements that `Value::as_array` gives: of a JSON array, its elements
/// in order; of anything else, none.
pub uninterp spec fn json_items(value: Value) -> Option<Seq<Value>>;

/// Whether `Value::is_null` holds: whether the value is the JSON `null`.
pub uninterp spec fn json_is_null(value: Value) -> bool;

/// The error that `serde::de::Error::custom` makes of a message for
/// `serde_json::Error`.
pub uninterp spec fn json_custom_error(message: Seq<char>) -> serde_json::Error;

/// `serde_json::from_str::<Value>`: parses a whole text as one JSON document.
/// The outcome depends on the text alone, so it has a name.
#[verifier::external_body]
pub(crate) fn parse_document(text: &str) -> (parsed: Result<Value, serde_json::Error>)
    ensures
        match parsed {
            Ok(document) => json_document(text@) == Some(document),
            Err(_) => json_document(text@) is None,
        },
{
    serde_json::from_str::<Value>(text)
}

/// `Value::get` with a text key: looks a member up in an object.
#[verifier::external_body]
pub(crate) fn member<'a>(value: &'a Value, key: &str) -> (found: Option<&'a Value>)
    ensures
        match found {
            Some(member) => json_member(*value, key@) == Some(*member),
            None => json_member(*value, key@) is None,
        },
{
    value.get(key)
}

/// `Value::as_str`: the content of a JSON string.
#[verifier::external_body]
pub(crate) fn text_of<'a>(value: &'a Value) -> (text: Option<&'a str>)
    ensures
        match text {
            Some(t) => json_text(*value) == Some(t@),
            None => json_text(*value) is None,
        },
{
    value.as_str()
}

/// `Value::as_u64`: a JSON number as an unsigned integer.
#[verifier::external_body]
pub(crate) fn unsigned_of(value: &Value) -> (number: Option<u64>)
    ensures
        number == json_unsigned(*value),
{
    value.as_u64()
}

/// `Value::as_array`: the elements of a JSON array.
#[verifier::external_body]
pub(crate) fn items_of<'a>(value: &'a Value) -> (items: Option<&'a Vec<Value>>)
    ensures
        match items {
            Some(elements) => json_items(*value) == Some(elements@),
            None => json_items(*value) is None,
        },
{
    value.as_array()
}

/// `Value::is_null`: whether a value is the JSON `null`.
#[verifier::external_body]
pub(crate) fn is_null(value: &Value) -> (null: bool)
    ensures
        null == json_is_null(*value),
{
    value.is_null()
}

/// `serde::de::Error::custom` for `serde_json::Error`: an error made of the
/// given message. Which error it is depends on the message alone, so it has
/// a name; what the error then shows is not claimed.
#[verifier::external_body]
pub(crate) fn shape_error(message: &str) -> (error: serde_json::Error)
    ensures
        error == json_custom_error(message@),
{
    <serde_json::Error as serde::de::Error>::custom(message)
}

} // verus!
