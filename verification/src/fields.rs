//! Typed members of JSON objects.

use crate::json::{json_member, json_model, json_text, json_unsigned, member_model, JsonModel};
use vstd::prelude::*;

verus! {

/// The text that an object holds under `key`.
pub open spec fn text_member(model: JsonModel, key: Seq<char>) -> Option<Seq<char>> {
    match member_model(model, key) {
        Some(JsonModel::Text(text)) => Some(text),
        _ => None,
    }
}

/// The unsigned number that an object holds under `key`.
pub open spec fn unsigned_member(model: JsonModel, key: Seq<char>) -> Option<u64> {
    match member_model(model, key) {
        Some(JsonModel::Unsigned(number)) => Some(number),
        _ => None,
    }
}

/// The text that `value` holds under `key`, where it is an object with a
/// string there.
pub(crate) fn member_text<'a>(value: &'a serde_json::Value, key: &str) -> (text: Option<&'a str>)
    ensures
        match text {
            Some(s) => text_member(json_model(*value), key@) == Some(s@),
            None => text_member(json_model(*value), key@) is None,
        },
{
    match json_member(value, key) {
        Some(member) => json_text(member),
        None => None,
    }
}

/// The number that `value` holds under `key`, where it is an object with an
/// unsigned integer there.
pub(crate) fn member_unsigned(value: &serde_json::Value, key: &str) -> (number: Option<u64>)
    ensures
        number == unsigned_member(json_model(*value), key@),
{
    match json_member(value, key) {
        Some(member) => json_unsigned(member),
        None => None,
    }
}

} // verus!
