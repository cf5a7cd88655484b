use mqtt_bridge::connection::{
    plan_connection, subscription_filter, ConnectionPlan, ALTERNATE_PROTOCOL_VERSION,
    DEFAULT_PROTOCOL_VERSION,
};
use mqtt_bridge::text::{begins_with, same_text};

#[test]
fn plain_host_defaults_to_version_three() {
    assert_eq!(
        plan_connection("tcp://broker:1883", None),
        ConnectionPlan { websocket: false, secured: false, protocol_version: 3 }
    );
}

#[test]
fn version_five_is_taken_where_asked_for() {
    assert_eq!(
        plan_connection("tcp://broker:1883", Some(5)),
        ConnectionPlan { websocket: false, secured: false, protocol_version: 5 }
    );
    assert_eq!(
        plan_connection("ws://broker:80", Some(5)),
        ConnectionPlan { websocket: true, secured: false, protocol_version: 5 }
    );
}

#[test]
fn other_versions_fall_back_to_three() {
    for version in [0u8, 3, 4, 6, 255] {
        assert_eq!(
            plan_connection("ws://broker", Some(version)).protocol_version,
            DEFAULT_PROTOCOL_VERSION
        );
    }
    assert_eq!(
        plan_connection("ws://broker", Some(5)).protocol_version,
        ALTERNATE_PROTOCOL_VERSION
    );
}

#[test]
fn secured_web_socket() {
    assert_eq!(
        plan_connection("wss://broker:443", None),
        ConnectionPlan { websocket: true, secured: true, protocol_version: 3 }
    );
}

#[test]
fn scheme_is_read_from_the_start_only() {
    assert_eq!(
        plan_connection("ssl://ws", None),
        ConnectionPlan { websocket: false, secured: false, protocol_version: 3 }
    );
    assert_eq!(
        plan_connection("w", None),
        ConnectionPlan { websocket: false, secured: false, protocol_version: 3 }
    );
    assert_eq!(
        plan_connection("", Some(5)),
        ConnectionPlan { websocket: false, secured: false, protocol_version: 5 }
    );
    assert_eq!(
        plan_connection("ws", None),
        ConnectionPlan { websocket: true, secured: false, protocol_version: 3 }
    );
    assert_eq!(
        plan_connection("WS://broker", None),
        ConnectionPlan { websocket: false, secured: false, protocol_version: 3 }
    );
}

#[test]
fn filter_defaults_to_every_topic() {
    assert_eq!(subscription_filter(None), "#");
    assert_eq!(subscription_filter(Some("sensors/+".to_string())), "sensors/+");
    assert_eq!(subscription_filter(Some(String::new())), "");
}

#[test]
fn prefix_test() {
    assert!(begins_with(b"abc", b""));
    assert!(begins_with(b"abc", b"ab"));
    assert!(begins_with(b"abc", b"abc"));
    assert!(!begins_with(b"abc", b"abcd"));
    assert!(!begins_with(b"abc", b"b"));
    assert!(!begins_with(b"", b"a"));
}

#[test]
fn text_equality() {
    assert!(same_text("", ""));
    assert!(same_text("a/b", "a/b"));
    assert!(!same_text("a/b", "a/c"));
    assert!(!same_text("a", "ab"));
    assert!(!same_text("\u{e9}", "e"));
}
