use mqtt_bridge::classify::classify;
use mqtt_bridge::ingest::{absorb, InboundMessage};
use mqtt_bridge::snapshot::{
    render, render_objects, render_value, reply_for, respond, Reply, STATUS_OK, STATUS_SERVER_ERROR,
};
use mqtt_bridge::store::TopicStore;
use mqtt_bridge::value::TopicValue;
use serde_json::Value;

fn json(text: &str) -> Value {
    serde_json::from_str::<Value>(text).unwrap()
}

fn after_message(topic: &str, payload: &[u8]) -> TopicStore {
    let mut store = TopicStore::new();
    absorb(
        &mut store,
        Some(InboundMessage { topic: topic.to_string(), payload: payload.to_vec() }),
    );
    store
}

#[test]
fn object_message_is_served_under_its_topic() {
    let store = after_message("sensors/temp", b"{\"c\":21.5}");
    let reply = respond(&store.snapshot());
    assert_eq!(reply.status, 200);
    assert_eq!(reply.body, json("{\"sensors/temp\": {\"c\":21.5}}"));
}

#[test]
fn object_array_message_is_served_as_array() {
    let store = after_message("x", b"[{\"a\":1},{\"a\":2}]");
    let reply = respond(&store.snapshot());
    assert_eq!(reply.status, 200);
    assert_eq!(reply.body, json("{\"x\": [{\"a\":1},{\"a\":2}]}"));
}

#[test]
fn text_message_is_served_as_string() {
    let store = after_message("x", b"hello");
    let reply = respond(&store.snapshot());
    assert_eq!(reply.status, 200);
    assert_eq!(reply.body, json("{\"x\": \"hello\"}"));
}

#[test]
fn number_array_message_is_served_as_string() {
    let store = after_message("x", b"[1,2,3]");
    let reply = respond(&store.snapshot());
    assert_eq!(reply.status, 200);
    assert_eq!(reply.body, json("{\"x\": \"[1,2,3]\"}"));
}

#[test]
fn empty_store_is_served_as_empty_object() {
    let reply = respond(&TopicStore::new());
    assert_eq!(reply.status, STATUS_OK);
    assert_eq!(reply.body, json("{}"));
    assert_eq!(serde_json::to_string(&reply.body).unwrap(), "{}");
}

#[test]
fn document_has_one_member_per_topic() {
    let mut store = TopicStore::new();
    store.upsert("a".to_string(), classify(b"{\"k\":[1,{\"n\":null}]}"));
    store.upsert("b".to_string(), classify(b"[{\"x\":true},{}]"));
    store.upsert("c".to_string(), classify(b"not json"));
    store.upsert("a".to_string(), classify(b"{\"k\":2}"));
    let document = render(&store).unwrap();
    assert_eq!(
        document,
        json("{\"a\":{\"k\":2},\"b\":[{\"x\":true},{}],\"c\":\"not json\"}")
    );
}

#[test]
fn values_are_rendered_without_a_tag() {
    assert_eq!(
        render_value(&TopicValue::Text("plain".to_string())).unwrap(),
        Value::String("plain".to_string())
    );
    assert_eq!(
        render_value(&classify(b"{\"a\":{\"b\":1.25}}")).unwrap(),
        json("{\"a\":{\"b\":1.25}}")
    );
    assert_eq!(
        render_value(&classify(b"[{\"a\":1},{\"b\":\"c\"}]")).unwrap(),
        json("[{\"a\":1},{\"b\":\"c\"}]")
    );
    assert_eq!(render_value(&classify(b"[]")).unwrap(), Value::Array(vec![]));
}

#[test]
fn objects_are_rendered_in_order() {
    let objects = match classify(b"[{\"i\":0},{\"i\":1},{\"i\":2}]") {
        TopicValue::ObjectArray(objects) => objects,
        other => panic!("not an array of objects: {:?}", other),
    };
    let rendered = render_objects(&objects).unwrap();
    assert_eq!(rendered, json("[{\"i\":0},{\"i\":1},{\"i\":2}]"));
    assert_ne!(rendered, json("[{\"i\":2},{\"i\":1},{\"i\":0}]"));
}

#[test]
fn text_that_looks_like_json_stays_a_string() {
    let store = after_message("x", b"[1,2,3]");
    let document = render(&store).unwrap();
    assert_eq!(document["x"], Value::String("[1,2,3]".to_string()));
    assert_ne!(document["x"], json("[1,2,3]"));
}

#[test]
fn reply_for_a_document() {
    let reply = reply_for(Ok(json("{\"t\":\"v\"}")));
    assert_eq!(reply, Reply { status: 200, body: json("{\"t\":\"v\"}") });
}

#[test]
fn reply_for_a_failure() {
    let reply = reply_for(Err("key must be a string".to_string()));
    assert_eq!(reply.status, STATUS_SERVER_ERROR);
    assert_eq!(reply.status, 500);
    assert_eq!(reply.body, json("{\"error_message\": \"key must be a string\"}"));
}

#[test]
fn later_message_replaces_the_member() {
    let mut store = after_message("x", b"{\"a\":1}");
    absorb(
        &mut store,
        Some(InboundMessage { topic: "x".to_string(), payload: b"second".to_vec() }),
    );
    assert_eq!(respond(&store).body, json("{\"x\":\"second\"}"));
}
