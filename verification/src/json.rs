//! The JSON types and calls that the rest of the crate builds on.
//!
//! Everything in this file is trusted: Verus takes the contracts below as
//! given and never looks at the code of `serde_json` or of the standard
//! library behind them.

use serde_json::Value;
use std::collections::HashMap;
use vstd::prelude::*;
use vstd::utf8::*;

verus! {

/// `serde_json::Value`, carried through the verified code as an opaque value.
#[verifier::external_type_specification]
#[verifier::external_body]
pub struct ExValue(serde_json::Value);

/// `serde_json::Error`, carried through the verified code as an opaque value.
#[verifier::external_type_specification]
#[verifier::external_body]
pub struct ExJsonError(serde_json::Error);

/// `serde_json::Map`, the members of a JSON object under construction.
#[verifier::external_type_specification]
#[verifier::external_body]
#[verifier::reject_recursive_types(K)]
#[verifier::reject_recursive_types(V)]
pub struct ExJsonMap<K, V>(serde_json::Map<K, V>);

/// A parsed JSON object: member name to member value.
pub type JsonObject = HashMap<String, Value>;

/// What a `JsonObject` holds, as contracts speak of it.
pub type ObjectModel = Map<String, Value>;

/// The members of a JSON object under construction, by name.
pub type MemberModel = Map<Seq<char>, Value>;

/// The text that `String::from_utf8_lossy` yields for `bytes`.
pub uninterp spec fn lossy_text(bytes: Seq<u8>) -> Seq<char>;

/// The object that `serde_json::from_str::<HashMap<String, Value>>` reads from
/// `text`, or `None` where it reports an error.
pub uninterp spec fn parsed_object(text: Seq<char>) -> Option<ObjectModel>;

/// The objects that `serde_json::from_str::<Vec<HashMap<String, Value>>>`
/// reads from `text`, or `None` where it reports an error.
pub uninterp spec fn parsed_object_array(text: Seq<char>) -> Option<Seq<ObjectModel>>;

/// The contents of each object of `objects`, in order.
pub open spec fn object_models(objects: Seq<JsonObject>) -> Seq<ObjectModel> {
    objects.map_values(|object: JsonObject| object@)
}

/// Calls `String::from_utf8_lossy`. Trusted: the result is a function of the
/// bytes alone, and bytes that are valid UTF-8 decode to the text they encode.
#[verifier::external_body]
pub(crate) fn decode_lossy(bytes: &[u8]) -> (text: String)
    ensures
        text@ == lossy_text(bytes@),
        valid_utf8(bytes@) ==> text@ == decode_utf8(bytes@),
{
    String::from_utf8_lossy(bytes).into_owned()
}

/// Calls `serde_json::from_str` for a single JSON object. Trusted: the outcome
/// is a function of the text alone.
#[verifier::external_body]
pub(crate) fn parse_object(text: &str) -> (parsed: Result<JsonObject, serde_json::Error>)
    ensures
        match parsed {
            Ok(object) => parsed_object(text@) == Some(object@),
            Err(_) => parsed_object(text@).is_none(),
        },
{
    serde_json::from_str::<HashMap<String, Value>>(text)
}

/// Calls `serde_json::from_str` for a JSON array of objects. Trusted: the
/// outcome is a function of the text alone.
#[verifier::external_body]
pub(crate) fn parse_object_array(text: &str) -> (parsed: Result<
    Vec<JsonObject>,
    serde_json::Error,
>)
    ensures
        match parsed {
            Ok(objects) => parsed_object_array(text@) == Some(object_models(objects@)),
            Err(_) => parsed_object_array(text@).is_none(),
        },
{
    serde_json::from_str::<Vec<HashMap<String, Value>>>(text)
}

/// The JSON string that `Value::String` makes of `text`.
pub uninterp spec fn json_string(text: Seq<char>) -> Value;

/// The JSON array that `Value::Array` makes of `items`.
pub uninterp spec fn json_array(items: Seq<Value>) -> Value;

/// The JSON object that `Value::Object` makes of `members`.
pub uninterp spec fn json_document(members: MemberModel) -> Value;

/// The JSON value that `serde_json::to_value` gives for an object with the
/// contents `object`, or `None` where it reports an error.
pub uninterp spec fn json_object(object: ObjectModel) -> Option<Value>;

/// The members that a `serde_json::Map` holds, by name.
pub uninterp spec fn json_members(members: serde_json::Map<String, Value>) -> MemberModel;

/// Builds `Value::String`. Trusted: the value is a function of the text alone.
#[verifier::external_body]
pub(crate) fn string_value(text: String) -> (value: Value)
    ensures
        value == json_string(text@),
{
    Value::String(text)
}

/// Builds `Value::Array`. Trusted: the value is a function of the items, in
/// their order.
#[verifier::external_body]
pub(crate) fn array_value(items: Vec<Value>) -> (value: Value)
    ensures
        value == json_array(items@),
{
    Value::Array(items)
}

/// Calls `serde_json::to_value` on a parsed object. Trusted: the outcome is a
/// function of the object's contents alone.
#[verifier::external_body]
pub(crate) fn object_value(object: &JsonObject) -> (outcome: Result<Value, serde_json::Error>)
    ensures
        match outcome {
            Ok(value) => json_object(object@) == Some(value),
            Err(_) => json_object(object@).is_none(),
        },
{
    serde_json::to_value(object)
}

/// Calls `serde_json::Map::new`. Trusted: the new map has no members.
#[verifier::external_body]
pub(crate) fn no_members() -> (members: serde_json::Map<String, Value>)
    ensures
        json_members(members) == MemberModel::empty(),
{
    serde_json::Map::new()
}

/// Calls `serde_json::Map::insert`. Trusted: the member `name` now has the
/// given value, whether or not the map held one under that name, and every
/// other member is unchanged.
#[verifier::external_body]
pub(crate) fn put_member(members: &mut serde_json::Map<String, Value>, name: String, value: Value)
    ensures
        json_members(*final(members)) == json_members(*old(members)).insert(name@, value),
{
    members.insert(name, value);
}

/// Builds `Value::Object`. Trusted: the value is a function of the members
/// that the map holds.
#[verifier::external_body]
pub(crate) fn document_value(members: serde_json::Map<String, Value>) -> (value: Value)
    ensures
        value == json_document(json_members(members)),
{
    Value::Object(members)
}

/// Calls `to_string` on a `serde_json::Error`: the error's description.
/// Nothing is claimed of the text.
#[verifier::external_body]
pub(crate) fn error_text(error: &serde_json::Error) -> (text: String) {
    error.to_string()
}

} // verus!
