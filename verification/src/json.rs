//! The JSON documents that the server sends, as `serde_json` holds them, and
//! what the decoder reads from them.

use vstd::prelude::*;

verus! {

/// `serde_json::Value`, a JSON value. What it holds is known through
/// `json_model` alone.
#[verifier::external_type_specification]
#[verifier::external_body]
pub struct ExValue(serde_json::Value);

/// `serde_json::Error`, the error of a text that is no JSON document.
#[verifier::external_type_specification]
#[verifier::external_body]
pub struct ExJsonError(serde_json::Error);

/// What a JSON number holds for the decoder: its value where it is an integer
/// from zero to `u64::MAX`, and nothing where it is negative or fractional.
pub ghost enum JsonNumber {
    Unsigned(u64),
    Other,
}

/// The content of a JSON value.
pub ghost enum Json {
    Null,
    Bool(bool),
    Number(JsonNumber),
    Text(Seq<char>),
    Array(Seq<Json>),
    Object(Map<Seq<char>, Json>),
}

/// The content of a `serde_json::Value`.
pub uninterp spec fn json_model(value: serde_json::Value) -> Json;

/// The content of the document that `text` is, where `serde_json` accepts it.
pub uninterp spec fn json_parse(text: Seq<char>) -> Option<Json>;

/// The member of the object `doc` under `key`; nothing where `doc` is no
/// object or has no such member.
pub open spec fn json_member(doc: Json, key: Seq<char>) -> Option<Json> {
    match doc {
        Json::Object(members) => if members.contains_key(key) {
            Some(members[key])
        } else {
            None
        },
        _ => None,
    }
}

/// The text of a JSON string; nothing for any other value.
pub open spec fn json_text(value: Json) -> Option<Seq<char>> {
    match value {
        Json::Text(text) => Some(text),
        _ => None,
    }
}

/// The truth value of a JSON boolean; nothing for any other value.
pub open spec fn json_flag(value: Json) -> Option<bool> {
    match value {
        Json::Bool(flag) => Some(flag),
        _ => None,
    }
}

/// The value of a JSON number that is an integer from zero to `u64::MAX`;
/// nothing for any other value.
pub open spec fn json_unsigned(value: Json) -> Option<u64> {
    match value {
        Json::Number(JsonNumber::Unsigned(n)) => Some(n),
        _ => None,
    }
}

/// `serde_json::from_str` at `serde_json::Value`: reads `text` as one JSON
/// document. The outcome depends on `text` alone; `json_parse` names it.
#[verifier::external_body]
pub(crate) fn parse_value(text: &str) -> (r: Result<serde_json::Value, serde_json::Error>)
    ensures
        match r {
            Ok(value) => json_parse(text@) == Some(json_model(value)),
            Err(_) => json_parse(text@) is None,
        },
{
    serde_json::from_str::<serde_json::Value>(text)
}

/// `serde_json::Value::get` with a string key: the member of an object under
/// that key, and nothing for a missing key or a value that is no object.
#[verifier::external_body]
pub(crate) fn value_get<'a>(doc: &'a serde_json::Value, key: &str) -> (r: Option<&'a serde_json::Value>)
    ensures
        match r {
            Some(member) => json_member(json_model(*doc), key@) == Some(json_model(*member)),
            None => json_member(json_model(*doc), key@) is None,
        },
{
    doc.get(key)
}

/// `serde_json::Value::as_str`: the text of a string value.
pub assume_specification<'a>[ serde_json::Value::as_str ](value: &'a serde_json::Value) -> (r: Option<&'a str>)
    ensures
        match r {
            Some(text) => json_text(json_model(*value)) == Some(text@),
            None => json_text(json_model(*value)) is None,
        },
;

/// `serde_json::Value::as_bool`: the truth value of a boolean.
pub assume_specification[ serde_json::Value::as_bool ](value: &serde_json::Value) -> (r: Option<bool>)
    ensures
        r == json_flag(json_model(*value)),
;

/// `serde_json::Value::as_u64`: the value of a number that is an integer from
/// zero to `u64::MAX`.
pub assume_specification[ serde_json::Value::as_u64 ](value: &serde_json::Value) -> (r: Option<u64>)
    ensures
        r == json_unsigned(json_model(*value)),
;

/// The text of the member of `doc` under `key`, where `doc` has one and it is a string.
pub open spec fn json_member_text(doc: Json, key: Seq<char>) -> Option<Seq<char>> {
    match json_member(doc, key) {
        Some(member) => json_text(member),
        None => None,
    }
}

/// The truth value of the member of `doc` under `key`, where `doc` has one
/// and it is a boolean.
pub open spec fn json_member_flag(doc: Json, key: Seq<char>) -> Option<bool> {
    match json_member(doc, key) {
        Some(member) => json_flag(member),
        None => None,
    }
}

/// Reads the string member of `doc` under `key`.
pub fn member_text(doc: &serde_json::Value, key: &str) -> (r: Option<String>)
    ensures
        match r {
            Some(text) => json_member_text(json_model(*doc), key@) == Some(text@),
            None => json_member_text(json_model(*doc), key@) is None,
        },
{
    match value_get(doc, key) {
        Some(member) => match member.as_str() {
            Some(text) => Some(text.to_owned()),
            None => None,
        },
        None => None,
    }
}

/// Reads the boolean member of `doc` under `key`.
pub fn member_flag(doc: &serde_json::Value, key: &str) -> (r: Option<bool>)
    ensures
        r == json_member_flag(json_model(*doc), key@),
{
    match value_get(doc, key) {
        Some(member) => member.as_bool(),
        None => None,
    }
}

} // verus!
