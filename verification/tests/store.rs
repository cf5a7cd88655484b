use mqtt_bridge::classify::classify;
use mqtt_bridge::store::TopicStore;
use mqtt_bridge::value::TopicValue;

fn text(s: &str) -> TopicValue {
    TopicValue::Text(s.to_string())
}

#[test]
fn new_store_is_empty() {
    let store = TopicStore::new();
    assert!(store.is_empty());
    assert_eq!(store.len(), 0);
    assert!(store.get("x").is_none());
    assert!(!store.contains("x"));
}

#[test]
fn upsert_is_seen_by_snapshot() {
    let mut store = TopicStore::new();
    store.upsert("t".to_string(), text("v"));
    let snapshot = store.snapshot();
    assert_eq!(snapshot.len(), 1);
    assert_eq!(snapshot.get("t"), Some(&text("v")));
}

#[test]
fn last_write_wins() {
    let mut store = TopicStore::new();
    store.upsert("t".to_string(), text("v"));
    store.upsert("t".to_string(), text("v2"));
    let snapshot = store.snapshot();
    assert_eq!(snapshot.len(), 1);
    assert_eq!(snapshot.get("t"), Some(&text("v2")));
    assert_eq!(snapshot.entries().len(), 1);
}

#[test]
fn overwrite_may_change_the_variant() {
    let mut store = TopicStore::new();
    store.upsert("t".to_string(), classify(b"{\"a\":1}"));
    store.upsert("t".to_string(), text("plain"));
    assert_eq!(store.get("t"), Some(&text("plain")));
    assert_eq!(store.len(), 1);
}

#[test]
fn topics_are_kept_apart() {
    let mut store = TopicStore::new();
    store.upsert("a".to_string(), text("1"));
    store.upsert("b".to_string(), text("2"));
    store.upsert("a/b".to_string(), text("3"));
    store.upsert("a".to_string(), text("4"));
    assert_eq!(store.len(), 3);
    assert!(!store.is_empty());
    assert_eq!(store.get("a"), Some(&text("4")));
    assert_eq!(store.get("b"), Some(&text("2")));
    assert_eq!(store.get("a/b"), Some(&text("3")));
    assert!(store.get("c").is_none());
    assert!(store.contains("b"));
    assert!(!store.contains("B"));
}

#[test]
fn topics_are_compared_character_for_character() {
    let mut store = TopicStore::new();
    store.upsert("caf\u{e9}".to_string(), text("1"));
    store.upsert("cafe".to_string(), text("2"));
    store.upsert("".to_string(), text("3"));
    assert_eq!(store.len(), 3);
    assert_eq!(store.get("caf\u{e9}"), Some(&text("1")));
    assert_eq!(store.get("cafe"), Some(&text("2")));
    assert_eq!(store.get(""), Some(&text("3")));
}

#[test]
fn snapshot_is_a_copy() {
    let mut store = TopicStore::new();
    store.upsert("t".to_string(), text("before"));
    let snapshot = store.snapshot();
    store.upsert("t".to_string(), text("after"));
    store.upsert("u".to_string(), text("new"));
    assert_eq!(snapshot.get("t"), Some(&text("before")));
    assert!(snapshot.get("u").is_none());
    assert_eq!(snapshot.len(), 1);
    assert_eq!(store.get("t"), Some(&text("after")));
    assert_eq!(store.len(), 2);
}

#[test]
fn entries_list_each_topic_once() {
    let mut store = TopicStore::new();
    store.upsert("a".to_string(), text("1"));
    store.upsert("b".to_string(), text("2"));
    store.upsert("a".to_string(), text("3"));
    let mut seen: Vec<(String, TopicValue)> = store
        .entries()
        .iter()
        .map(|entry| (entry.topic.clone(), entry.value.clone()))
        .collect();
    seen.sort_by(|x, y| x.0.cmp(&y.0));
    assert_eq!(
        seen,
        vec![("a".to_string(), text("3")), ("b".to_string(), text("2"))]
    );
}
