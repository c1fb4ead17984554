//! Parsed JSON documents.
//!
//! Parsing is done by `serde_json`; a parsed document stays a
//! `serde_json::Value`. Contracts speak of a document through [`JsonData`], a
//! mathematical picture of what it holds. The link between the two is not
//! proved here: it is stated by the items of this module that name a
//! `serde_json` function in their documentation.

use vstd::prelude::*;

verus! {

/// What a JSON document holds, as far as this crate reads it.
pub enum JsonData {
    Null,
    Bool(bool),
    /// A number. `Some(n)` when it is a non-negative integer below 2^64,
    /// `None` for every other number (negative, fractional, out of range).
    Number(Option<u64>),
    Text(Seq<char>),
    Array(Seq<JsonData>),
    Object(Map<Seq<char>, JsonData>),
}

/// The member `key` of an object; `None` for a missing key and for anything
/// that is not an object.
pub open spec fn member_of(data: JsonData, key: Seq<char>) -> Option<JsonData> {
    match data {
        JsonData::Object(members) => if members.contains_key(key) {
            Some(members[key])
        } else {
            None
        },
        _ => None,
    }
}

/// The characters of a string value; `None` for anything else.
pub open spec fn text_of(data: JsonData) -> Option<Seq<char>> {
    match data {
        JsonData::Text(text) => Some(text),
        _ => None,
    }
}

/// The value of a number that is a non-negative integer below 2^64; `None`
/// for anything else.
pub open spec fn unsigned_of(data: JsonData) -> Option<u64> {
    match data {
        JsonData::Number(n) => n,
        _ => None,
    }
}

/// The elements of an array; `None` for anything else.
pub open spec fn items_of(data: JsonData) -> Option<Seq<JsonData>> {
    match data {
        JsonData::Array(items) => Some(items),
        _ => None,
    }
}

/// `serde_json::Value`, a parsed JSON document. Opaque to the verifier.
#[verifier::external_type_specification]
#[verifier::external_body]
pub struct ExValue(serde_json::Value);

/// `serde_json::Error`, the reason a text failed to parse. Opaque to the
/// verifier.
#[verifier::external_type_specification]
#[verifier::external_body]
pub struct ExError(serde_json::Error);

/// What the document `value` holds.
pub uninterp spec fn json_data(value: serde_json::Value) -> JsonData;

/// What `text` parses to, or `None` where `text` is not one JSON document.
pub uninterp spec fn json_of_text(text: Seq<char>) -> Option<JsonData>;

/// Calls `serde_json::from_str` to parse `text` into a `serde_json::Value`.
///
/// Trusted: parsing depends on the text alone, so the outcome is
/// `json_of_text` of it; on success the value holds that document, and an
/// error is returned exactly where there is none.
#[verifier::external_body]
pub(crate) fn parse_value(text: &str) -> (parsed: Result<serde_json::Value, serde_json::Error>)
    ensures
        match parsed {
            Ok(value) => json_of_text(text@) == Some(json_data(value)),
            Err(_) => json_of_text(text@) is None,
        },
{
    serde_json::from_str::<serde_json::Value>(text)
}

/// Calls `serde_json::Value::get` with a string key.
///
/// Trusted: on an object that has the key, the result is the member stored
/// under it; on an object without the key, and on every value that is not an
/// object, the result is `None`.
#[verifier::external_body]
pub(crate) fn member<'a>(value: &'a serde_json::Value, key: &str) -> (found: Option<
    &'a serde_json::Value,
>)
    ensures
        match found {
            Some(inner) => member_of(json_data(*value), key@) == Some(json_data(*inner)),
            None => member_of(json_data(*value), key@) is None,
        },
{
    value.get(key)
}

/// `serde_json::Value::as_str`.
///
/// Trusted: a string value gives its characters, every other value `None`.
pub assume_specification<'a>[ serde_json::Value::as_str ](value: &'a serde_json::Value) -> (text:
    Option<&'a str>)
    ensures
        match text {
            Some(s) => text_of(json_data(*value)) == Some(s@),
            None => text_of(json_data(*value)) is None,
        },
;

/// `serde_json::Value::as_u64`.
///
/// Trusted: a number that is a non-negative integer below 2^64 gives that
/// integer; every other number and every other value gives `None`.
pub assume_specification[ serde_json::Value::as_u64 ](value: &serde_json::Value) -> (n: Option<u64>)
    ensures
        n == unsigned_of(json_data(*value)),
;

/// `serde_json::Value::as_array`.
///
/// Trusted: an array gives its elements in order, every other value `None`.
pub assume_specification<'a>[ serde_json::Value::as_array ](value: &'a serde_json::Value) -> (items:
    Option<&'a Vec<serde_json::Value>>)
    ensures
        match items {
            Some(list) => items_of(json_data(*value)) == Some(
                list@.map_values(|item: serde_json::Value| json_data(item)),
            ),
            None => items_of(json_data(*value)) is None,
        },
;

} // verus!
