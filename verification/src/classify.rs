//! Classification of raw payloads.
//!
//! A payload is looked at once: its first byte selects which of two JSON
//! shapes is attempted, and a payload that does not have the attempted shape
//! is kept as text. No payload is ever rejected.

use crate::json::{
    decode_lossy, lossy_text, parse_object, parse_object_array, parsed_object,
    parsed_object_array, JsonObject,
};
use crate::value::{TopicValue, TopicValueModel};
use vstd::prelude::*;
use vstd::utf8::{decode_utf8, valid_utf8};

verus! {

/// The byte `[`.
pub const OPEN_BRACKET: u8 = 0x5B;

/// Whether the first byte of `payload` is `[`.
pub open spec fn opens_array(payload: Seq<u8>) -> bool {
    payload.len() > 0 && payload[0] == OPEN_BRACKET
}

/// The value that a payload is classified as.
///
/// A payload whose first byte is `[` becomes an `ObjectArray` where its text
/// reads as a JSON array of objects; any other payload becomes an `Object`
/// where its text reads as a single JSON object. In every other case the
/// payload is kept as `Text`, decoded with substitution of invalid sequences.
pub open spec fn classified(payload: Seq<u8>) -> TopicValueModel {
    let text = lossy_text(payload);
    if opens_array(payload) {
        match parsed_object_array(text) {
            Some(objects) => TopicValueModel::ObjectArray(objects),
            None => TopicValueModel::Text(text),
        }
    } else {
        match parsed_object(text) {
            Some(object) => TopicValueModel::Object(object),
            None => TopicValueModel::Text(text),
        }
    }
}

/// The value for a payload on which the array-of-objects shape was attempted:
/// the objects read, or the payload's text where the attempt failed.
pub fn settle_array_attempt(text: String, attempt: Option<Vec<JsonObject>>) -> (value: TopicValue)
    ensures
        value == match attempt {
            Some(objects) => TopicValue::ObjectArray(objects),
            None => TopicValue::Text(text),
        },
{
    match attempt {
        Some(objects) => TopicValue::ObjectArray(objects),
        None => TopicValue::Text(text),
    }
}

/// The value for a payload on which the single-object shape was attempted:
/// the object read, or the payload's text where the attempt failed.
pub fn settle_object_attempt(text: String, attempt: Option<JsonObject>) -> (value: TopicValue)
    ensures
        value == match attempt {
            Some(object) => TopicValue::Object(object),
            None => TopicValue::Text(text),
        },
{
    match attempt {
        Some(object) => TopicValue::Object(object),
        None => TopicValue::Text(text),
    }
}

/// Whether the first byte of `payload` is `[`.
pub fn starts_with_bracket(payload: &[u8]) -> (found: bool)
    ensures
        found == opens_array(payload@),
{
    payload.len() > 0 && payload[0] == OPEN_BRACKET
}

/// Classifies a payload. Never fails: a payload that is not of the attempted
/// JSON shape is kept as text, and where its bytes are valid UTF-8 that text
/// is the one they encode.
pub fn classify(payload: &[u8]) -> (value: TopicValue)
    ensures
        value@ == classified(payload@),
        valid_utf8(payload@) && value@ is Text ==> value@ == TopicValueModel::Text(
            decode_utf8(payload@),
        ),
{
    let text = decode_lossy(payload);
    if starts_with_bracket(payload) {
        let attempt = match parse_object_array(text.as_str()) {
            Ok(objects) => Some(objects),
            Err(_) => None,
        };
        settle_array_attempt(text, attempt)
    } else {
        let attempt = match parse_object(text.as_str()) {
            Ok(object) => Some(object),
            Err(_) => None,
        };
        settle_object_attempt(text, attempt)
    }
}

/// Classification depends on the payload's bytes and on nothing else: equal
/// payloads are classified as equal values.
pub proof fn lemma_classified_deterministic(first: Seq<u8>, second: Seq<u8>)
    requires
        first =~= second,
    ensures
        classified(first) == classified(second),
{
}

/// A payload whose first byte is `[` is never classified as a single object,
/// and any other payload is never classified as an array of objects.
pub proof fn lemma_first_byte_selects_shape(payload: Seq<u8>)
    ensures
        opens_array(payload) ==> !(classified(payload) is Object),
        !opens_array(payload) ==> !(classified(payload) is ObjectArray),
{
}

/// A payload that is not recognised as JSON of the attempted shape is kept
/// verbatim: as the text that lossy decoding gives for it.
pub proof fn lemma_fallback_is_lossy_text(payload: Seq<u8>)
    ensures
        classified(payload) is Text ==> classified(payload) == TopicValueModel::Text(
            lossy_text(payload),
        ),
        opens_array(payload) && parsed_object_array(lossy_text(payload)).is_none()
            ==> classified(payload) == TopicValueModel::Text(lossy_text(payload)),
        !opens_array(payload) && parsed_object(lossy_text(payload)).is_none()
            ==> classified(payload) == TopicValueModel::Text(lossy_text(payload)),
{
}

} // verus!
