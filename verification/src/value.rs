//! The value remembered for a topic.

use crate::json::{object_models, JsonObject, ObjectModel};
use vstd::prelude::*;

verus! {

/// The last payload seen on a topic, tagged by what it was recognised as.
#[derive(Debug, PartialEq)]
pub enum TopicValue {
    /// A payload that is not structured JSON, kept as text.
    Text(String),
    /// A payload that is a single JSON object.
    Object(JsonObject),
    /// A payload that is a JSON array whose elements are all objects.
    ObjectArray(Vec<JsonObject>),
}

/// The mathematical content of a `TopicValue`.
pub ghost enum TopicValueModel {
    Text(Seq<char>),
    Object(ObjectModel),
    ObjectArray(Seq<ObjectModel>),
}

impl View for TopicValue {
    type V = TopicValueModel;

    open spec fn view(&self) -> TopicValueModel {
        match self {
            TopicValue::Text(text) => TopicValueModel::Text(text@),
            TopicValue::Object(object) => TopicValueModel::Object(object@),
            TopicValue::ObjectArray(objects) => TopicValueModel::ObjectArray(
                object_models(objects@),
            ),
        }
    }
}

impl Clone for TopicValue {
    /// A copy with the same content.
    fn clone(&self) -> (copy: TopicValue)
        ensures
            copy@ == self@,
    {
        match self {
            TopicValue::Text(text) => TopicValue::Text(text.clone()),
            TopicValue::Object(object) => TopicValue::Object(object.clone()),
            TopicValue::ObjectArray(objects) => {
                let mut copies: Vec<JsonObject> = Vec::new();
                let mut i: usize = 0;
                while i < objects.len()
                    invariant
                        i <= objects.len(),
                        copies.len() == i,
                        forall|j: int| 0 <= j < i ==> copies[j]@ == objects[j]@,
                    decreases objects.len() - i,
                {
                    copies.push(objects[i].clone());
                    i += 1;
                }
                assert(object_models(copies@) =~= object_models(objects@));
                TopicValue::ObjectArray(copies)
            },
        }
    }
}

} // verus!
