//! Rendering of the store as one JSON document, and the reply that carries it.
//!
//! A value is rendered bare, without a tag: text as a JSON string, an object
//! as a JSON object, an array of objects as a JSON array. The document has one
//! member per topic.

use crate::json::{
    array_value, document_value, error_text, json_array, json_document, json_members, json_object,
    json_string, no_members, object_models, object_value, put_member, string_value, JsonObject,
    MemberModel, ObjectModel,
};
use crate::store::{distinct_topics, entries_model, lemma_model_value, StoreModel, TopicStore};
use crate::value::{TopicValue, TopicValueModel};
use serde_json::Value;
use vstd::prelude::*;

verus! {

/// The status of a reply that carries the document.
pub const STATUS_OK: u16 = 200;

/// The status of a reply that reports a failure to render.
pub const STATUS_SERVER_ERROR: u16 = 500;

/// What is sent back for a request: a status and a JSON body.
#[derive(Debug, PartialEq)]
pub struct Reply {
    pub status: u16,
    pub body: Value,
}

/// Whether every object of `objects` can be rendered.
pub open spec fn objects_renderable(objects: Seq<ObjectModel>) -> bool {
    forall|i: int| 0 <= i < objects.len() ==> (#[trigger] json_object(objects[i])).is_some()
}

/// The renderings of `objects`, in order.
pub open spec fn rendered_objects(objects: Seq<ObjectModel>) -> Seq<Value> {
    objects.map_values(|object: ObjectModel| json_object(object).unwrap())
}

/// The bare JSON value for `value`, or `None` where an object of it cannot be
/// rendered.
pub open spec fn rendered_value(value: TopicValueModel) -> Option<Value> {
    match value {
        TopicValueModel::Text(text) => Some(json_string(text)),
        TopicValueModel::Object(object) => json_object(object),
        TopicValueModel::ObjectArray(objects) => if objects_renderable(objects) {
            Some(json_array(rendered_objects(objects)))
        } else {
            None
        },
    }
}

/// Whether every value of `store` can be rendered.
pub open spec fn renderable(store: StoreModel) -> bool {
    forall|topic: Seq<char>|
        store.dom().contains(topic) ==> (#[trigger] rendered_value(store[topic])).is_some()
}

/// The members of the document for `store`: each topic with its value's
/// rendering.
pub open spec fn rendered_members(store: StoreModel) -> MemberModel {
    store.map_values(|value: TopicValueModel| rendered_value(value).unwrap())
}

/// The document for `store`: a JSON object with one member per topic, or
/// `None` where some value cannot be rendered.
pub open spec fn rendered(store: StoreModel) -> Option<Value> {
    if renderable(store) {
        Some(json_document(rendered_members(store)))
    } else {
        None
    }
}

/// The body of a reply that reports a failure: a JSON object whose one
/// member, `error_message`, holds the description.
pub open spec fn error_document(message: Seq<char>) -> Value {
    json_document(MemberModel::empty().insert("error_message"@, json_string(message)))
}

/// The reply for the outcome of rendering: the document with the success
/// status, or the failure's description with the server-error status.
pub open spec fn reply_of(outcome: Result<Value, Seq<char>>) -> Reply {
    match outcome {
        Ok(document) => Reply { status: STATUS_OK, body: document },
        Err(message) => Reply { status: STATUS_SERVER_ERROR, body: error_document(message) },
    }
}

/// Renders an array of objects as a JSON array, element by element. Fails
/// with the first error that rendering an element gives.
pub fn render_objects(objects: &Vec<JsonObject>) -> (outcome: Result<Value, serde_json::Error>)
    ensures
        match outcome {
            Ok(value) => rendered_value(TopicValueModel::ObjectArray(object_models(objects@)))
                == Some(value),
            Err(_) => rendered_value(TopicValueModel::ObjectArray(object_models(objects@)))
                .is_none(),
        },
{
    let ghost models = object_models(objects@);
    let mut items: Vec<Value> = Vec::new();
    let mut i: usize = 0;
    while i < objects.len()
        invariant
            i <= objects.len(),
            items.len() == i,
            models == object_models(objects@),
            forall|j: int| 0 <= j < i ==> #[trigger] json_object(models[j]) == Some(items[j]),
        decreases objects.len() - i,
    {
        match object_value(&objects[i]) {
            Ok(item) => {
                items.push(item);
            },
            Err(error) => {
                assert(json_object(models[i as int]).is_none());
                return Err(error);
            },
        }
        i += 1;
    }
    assert(objects_renderable(models));
    assert(items@ =~= rendered_objects(models));
    Ok(array_value(items))
}

/// Renders one value bare, without a tag.
pub fn render_value(value: &TopicValue) -> (outcome: Result<Value, serde_json::Error>)
    ensures
        match outcome {
            Ok(rendering) => rendered_value(value@) == Some(rendering),
            Err(_) => rendered_value(value@).is_none(),
        },
{
    match value {
        TopicValue::Text(text) => Ok(string_value(text.clone())),
        TopicValue::Object(object) => object_value(object),
        TopicValue::ObjectArray(objects) => render_objects(objects),
    }
}

/// Renders the whole store as one JSON object, topic by topic. Fails where a
/// value cannot be rendered.
pub fn render(store: &TopicStore) -> (outcome: Result<Value, serde_json::Error>)
    ensures
        match outcome {
            Ok(document) => rendered(store@) == Some(document),
            Err(_) => rendered(store@).is_none(),
        },
{
    let entries = store.entries();
    let mut members = no_members();
    let mut i: usize = 0;
    while i < entries.len()
        invariant
            i <= entries.len(),
            distinct_topics(entries@),
            entries_model(entries@) == store@,
            renderable(entries_model(entries@.take(i as int))),
            json_members(members) == rendered_members(entries_model(entries@.take(i as int))),
        decreases entries.len() - i,
    {
        let entry = &entries[i];
        let ghost before = entries@.take(i as int);
        let ghost after = entries@.take(i + 1);
        proof {
            assert(after.drop_last() =~= before);
            assert(after.last() == entries[i as int]);
        }
        match render_value(&entry.value) {
            Ok(rendering) => {
                put_member(&mut members, entry.topic.clone(), rendering);
                proof {
                    assert(rendered_members(entries_model(after)) =~= rendered_members(
                        entries_model(before),
                    ).insert(entry.topic@, rendering));
                }
            },
            Err(error) => {
                proof {
                    lemma_model_value(entries@, i as int);
                    assert(rendered_value(store@[entry.topic@]).is_none());
                }
                return Err(error);
            },
        }
        i += 1;
    }
    assert(entries@.take(i as int) =~= entries@);
    Ok(document_value(members))
}

/// The reply for the outcome of rendering.
pub fn reply_for(outcome: Result<Value, String>) -> (reply: Reply)
    ensures
        reply == reply_of(
            match outcome {
                Ok(document) => Ok(document),
                Err(message) => Err(message@),
            },
        ),
{
    match outcome {
        Ok(document) => Reply { status: STATUS_OK, body: document },
        Err(message) => {
            let mut members = no_members();
            put_member(&mut members, "error_message".to_owned(), string_value(message));
            Reply { status: STATUS_SERVER_ERROR, body: document_value(members) }
        },
    }
}

/// Answers a request for the store's content: the whole store as one
/// document, or a server error that carries the failure's description.
pub fn respond(store: &TopicStore) -> (reply: Reply)
    ensures
        match rendered(store@) {
            Some(document) => reply == reply_of(Ok(document)),
            None => exists|message: Seq<char>| reply == reply_of(Err(message)),
        },
{
    let outcome = match render(store) {
        Ok(document) => Ok(document),
        Err(error) => Err(error_text(&error)),
    };
    let ghost described = outcome;
    let reply = reply_for(outcome);
    proof {
        if let Err(message) = described {
            assert(reply == reply_of(Err(message@)));
        }
    }
    reply
}

/// A store that holds nothing renders as a JSON object without members.
pub proof fn lemma_empty_store_renders(store: StoreModel)
    requires
        store == StoreModel::empty(),
    ensures
        rendered(store) == Some(json_document(MemberModel::empty())),
{
    assert(rendered_members(store) =~= MemberModel::empty());
}

/// Text always renders, as a JSON string: a store that holds text under
/// every topic has a document, with the text of each topic as its member.
pub proof fn lemma_text_renders(store: StoreModel)
    requires
        forall|topic: Seq<char>| store.dom().contains(topic) ==> #[trigger] store[topic] is Text,
    ensures
        rendered(store).is_some(),
        forall|topic: Seq<char>|
            store.dom().contains(topic) ==> #[trigger] rendered_members(store)[topic]
                == json_string(store[topic]->Text_0),
{
    assert forall|topic: Seq<char>| store.dom().contains(topic) implies (#[trigger] rendered_value(
        store[topic],
    )).is_some() by {
        assert(store[topic] is Text);
    }
}

/// The document has exactly the store's topics as its members.
pub proof fn lemma_members_are_topics(store: StoreModel)
    ensures
        rendered_members(store).dom() == store.dom(),
{
    assert(rendered_members(store).dom() =~= store.dom());
}

} // verus!
