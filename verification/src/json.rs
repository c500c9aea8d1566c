//! JSON values as `serde_json` holds them, and the few questions this crate
//! asks of one. Nothing here is proved: each contract states what the
//! `serde_json` function that it names does.

use vstd::prelude::*;

verus! {

#[verifier::external_type_specification]
#[verifier::external_body]
pub struct ExJsonValue(serde_json::Value);

#[verifier::external_type_specification]
#[verifier::external_body]
pub struct ExJsonError(serde_json::Error);

/// What a JSON value holds, as far as this crate reads it. A number is told
/// apart only by whether it is a non-negative integer below 2^64.
pub enum JsonModel {
    Null,
    Bool(bool),
    Unsigned(u64),
    OtherNumber,
    Text(Seq<char>),
    Array(Seq<JsonModel>),
    Object(Map<Seq<char>, JsonModel>),
}

/// What `value` holds.
pub uninterp spec fn json_model(value: serde_json::Value) -> JsonModel;

/// What `serde_json` reads out of `text` as one JSON document; `None` where
/// it rejects the text.
pub uninterp spec fn json_parse(text: Seq<char>) -> Option<JsonModel>;

/// The models of a sequence of values, in the same order.
pub open spec fn json_models(values: Seq<serde_json::Value>) -> Seq<JsonModel> {
    Seq::new(values.len(), |i: int| json_model(values[i]))
}

/// The member that an object holds under `key`.
pub open spec fn member_model(model: JsonModel, key: Seq<char>) -> Option<JsonModel> {
    match model {
        JsonModel::Object(members) => if members.contains_key(key) {
            Some(members[key])
        } else {
            None
        },
        _ => None,
    }
}

/// `serde_json::from_str`, reading a whole document into a `Value`. Its
/// result depends on the text alone: `json_parse` names what the value holds
/// where the text is accepted, and is `None` where it is rejected.
#[verifier::external_body]
pub(crate) fn parse_json(text: &str) -> (parsed: Result<serde_json::Value, serde_json::Error>)
    ensures
        match parsed {
            Ok(value) => json_parse(text@) == Some(json_model(value)),
            Err(_) => json_parse(text@) is None,
        },
{
    serde_json::from_str::<serde_json::Value>(text)
}

/// `Value::get` with a string key: the member under `key` where the value is
/// an object that has one, `None` for a missing key and for every other
/// kind of value.
#[verifier::external_body]
pub(crate) fn json_member<'a>(value: &'a serde_json::Value, key: &str) -> (member: Option<
    &'a serde_json::Value,
>)
    ensures
        match member {
            Some(found) => member_model(json_model(*value), key@) == Some(json_model(*found)),
            None => member_model(json_model(*value), key@) is None,
        },
{
    value.get(key)
}

/// `Value::as_array`: the elements where the value is an array, `None`
/// otherwise.
#[verifier::external_body]
pub(crate) fn json_elements<'a>(value: &'a serde_json::Value) -> (elements: Option<
    &'a Vec<serde_json::Value>,
>)
    ensures
        match elements {
            Some(items) => json_model(*value) == JsonModel::Array(json_models(items@)),
            None => !(json_model(*value) is Array),
        },
{
    value.as_array()
}

/// `Value::as_str`: the text where the value is a string, `None` otherwise.
#[verifier::external_body]
pub(crate) fn json_text<'a>(value: &'a serde_json::Value) -> (text: Option<&'a str>)
    ensures
        match text {
            Some(s) => json_model(*value) == JsonModel::Text(s@),
            None => !(json_model(*value) is Text),
        },
{
    value.as_str()
}

/// `Value::as_u64`: the number where the value is a non-negative integer
/// below 2^64, `None` otherwise.
#[verifier::external_body]
pub(crate) fn json_unsigned(value: &serde_json::Value) -> (number: Option<u64>)
    ensures
        match number {
            Some(n) => json_model(*value) == JsonModel::Unsigned(n),
            None => !(json_model(*value) is Unsigned),
        },
{
    value.as_u64()
}

} // verus!
