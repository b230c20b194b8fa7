use heinzelmann::bus::{event_command, send_closure, subscribe_closure, QoS};

#[test]
fn subscribe_asks_for_at_most_once() {
    let subscribe = subscribe_closure();
    let s = subscribe("home/#".to_string());
    assert_eq!(s.topic, "home/#");
    assert_eq!(s.qos, QoS::AtMostOnce);
}

#[test]
fn send_asks_for_at_least_once() {
    let simple = send_closure(false);
    let p = simple("home/light".to_string(), "on".to_string());
    assert_eq!(p.topic, "home/light");
    assert_eq!(p.qos, QoS::AtLeastOnce);
    assert!(!p.retain);
    assert_eq!(p.payload, b"on".to_vec());
    let retained = send_closure(true);
    let p = retained("t".to_string(), "grüß".to_string());
    assert!(p.retain);
    assert_eq!(p.payload, "grüß".as_bytes().to_vec());
    assert_eq!(p.qos, QoS::AtLeastOnce);
}

#[test]
fn event_command_calls_handle_event() {
    assert_eq!(event_command("home/light", "on"), "(handle-event \"home/light\" \"on\")");
    assert_eq!(event_command("", ""), "(handle-event \"\" \"\")");
}

#[test]
fn event_command_escapes_quotes_of_the_payload_only() {
    assert_eq!(
        event_command("t", "{\"state\": \"on\"}"),
        "(handle-event \"t\" \"{\\\"state\\\": \\\"on\\\"}\")"
    );
    assert_eq!(event_command("a\"b", "c"), "(handle-event \"a\"b\" \"c\")");
    assert_eq!(event_command("t", "back\\slash"), "(handle-event \"t\" \"back\\slash\")");
    assert_eq!(event_command("t", "\""), "(handle-event \"t\" \"\\\"\")");
}
