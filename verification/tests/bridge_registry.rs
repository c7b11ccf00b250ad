use jyozu::json::JsonValue;
use jyozu::protocol::{envelope, millis_timestamp, now_ms, Envelope, MessageType};
use jyozu::server::{default_timeout_ms, welcome_envelope, IncomingAction, DEFAULT_HTTP_PORT, DEFAULT_WS_PORT};
use jyozu::session::{
    command_response, plugin_disconnected_error, BridgeError, BridgeState, CommandOutcome,
};

fn obj(members: Vec<(&str, JsonValue)>) -> JsonValue {
    JsonValue::Object(members.into_iter().map(|(k, v)| (k.to_string(), v)).collect())
}

fn s(text: &str) -> JsonValue {
    JsonValue::Str(text.to_string())
}

fn get<'a>(v: &'a JsonValue, key: &str) -> Option<&'a JsonValue> {
    match v {
        JsonValue::Object(m) => m.iter().find(|(k, _)| k == key).map(|(_, v)| v),
        _ => None,
    }
}

fn text_of(v: Option<&JsonValue>) -> Option<String> {
    match v {
        Some(JsonValue::Str(t)) => Some(t.clone()),
        _ => None,
    }
}

fn join(channel: Option<&str>, payload: JsonValue) -> Envelope {
    Envelope {
        id: "join-1".to_string(),
        message_type: MessageType::Join,
        channel: channel.map(|c| c.to_string()),
        timestamp: 1,
        payload: Some(payload),
    }
}

#[test]
fn sessions_are_registered_listed_and_counted() {
    let mut state: BridgeState<String, u32> = BridgeState::new();
    assert_eq!(state.session_count(), 0);
    state.register_session("A".to_string(), "out-a".to_string(), 5, Some("plugin".to_string()), None);
    state.register_session("B".to_string(), "out-b".to_string(), 6, None, Some("2".to_string()));
    assert_eq!(state.session_count(), 2);
    state.register_session("A".to_string(), "out-a2".to_string(), 7, None, None);
    assert_eq!(state.session_count(), 2);
    let list = state.list_sessions();
    assert_eq!(list.len(), 2);
    let a = list.iter().find(|i| i.channel == "A").unwrap();
    assert_eq!(a.joined_at, 7);
    assert_eq!(a.client_name, None);
    let b = list.iter().find(|i| i.channel == "B").unwrap();
    assert_eq!(b.client_version, Some("2".to_string()));
    let failed = state.unregister_session("A");
    assert!(failed.is_empty());
    assert_eq!(state.session_count(), 1);
    assert!(state.unregister_session("A").is_empty());
    assert_eq!(state.session_count(), 1);
}

#[test]
fn command_round_trip_through_the_registry() {
    let mut state: BridgeState<String, u32> = BridgeState::new();
    let mut current: Option<String> = None;
    let payload = obj(vec![
        ("sessionId", s("TESTCHAN")),
        ("client", obj(vec![("name", s("test-plugin")), ("version", s("1.0"))])),
    ]);
    match state.handle_incoming(join(Some("TESTCHAN"), payload), "out".to_string(), &mut current, 1_234) {
        IncomingAction::Reply(ack) => {
            assert_eq!(ack.timestamp, 1_234);
            assert_eq!(ack.message_type, MessageType::Ack);
            assert_eq!(ack.channel, Some("TESTCHAN".to_string()));
            let p = ack.payload.unwrap();
            assert_eq!(text_of(get(&p, "kind")), Some("join".to_string()));
            assert_eq!(text_of(get(&p, "sessionId")), Some("TESTCHAN".to_string()));
            assert_eq!(text_of(get(&p, "message")), Some("Joined channel".to_string()));
        }
        _ => panic!("a join is acknowledged"),
    }
    assert_eq!(current, Some("TESTCHAN".to_string()));
    let info = &state.list_sessions()[0];
    assert_eq!(info.client_name, Some("test-plugin".to_string()));
    assert_eq!(info.client_version, Some("1.0".to_string()));
    assert_eq!(info.joined_at, 1_234);

    let out = match state.send_command("TESTCHAN", "getDocumentInfo", obj(vec![]), 41, 1_300) {
        Ok(out) => out,
        Err(_) => panic!("the channel has a plugin"),
    };
    assert_eq!(out.outbound, "out");
    assert_eq!(out.request_id.len(), 36);
    assert_eq!(out.envelope.message_type, MessageType::Message);
    assert_eq!(out.envelope.timestamp, 1_300);
    assert_eq!(out.envelope.channel, Some("TESTCHAN".to_string()));
    let p = out.envelope.payload.as_ref().unwrap();
    assert_eq!(text_of(get(p, "command")), Some("getDocumentInfo".to_string()));
    assert_eq!(text_of(get(p, "requestId")), Some(out.request_id.clone()));

    let answer = Envelope {
        id: "resp-1".to_string(),
        message_type: MessageType::Message,
        channel: Some("TESTCHAN".to_string()),
        timestamp: 2,
        payload: Some(obj(vec![
            ("requestId", s(&out.request_id)),
            ("result", obj(vec![("document", s("ok"))])),
        ])),
    };
    let delivered = match state.handle_incoming(answer, "out".to_string(), &mut current, 1_400) {
        IncomingAction::Deliver(tx, outcome) => {
            assert_eq!(tx, 41);
            outcome
        }
        _ => panic!("the answer reaches its request"),
    };
    let result = state.finish_command(&out.request_id, CommandOutcome::Replied(delivered), 30_000);
    let body = command_response(result);
    assert!(matches!(get(&body, "success"), Some(JsonValue::Bool(true))));
    let r = get(&body, "result").unwrap();
    assert_eq!(text_of(get(r, "document")), Some("ok".to_string()));
    // a second answer finds nothing waiting
    assert!(state.handle_response(&out.request_id, None, None).is_none());
}

#[test]
fn commands_to_missing_channels_fail() {
    let mut state: BridgeState<String, u32> = BridgeState::new();
    match state.send_command("NOPE", "getNode", JsonValue::Null, 1, 5) {
        Err(e) => assert_eq!(e.message(), "No plugin connected for channel: NOPE"),
        Ok(_) => panic!("no plugin joined NOPE"),
    }
    let body = command_response(Err(BridgeError::NoPluginConnected("NOPE".to_string())));
    assert!(matches!(get(&body, "success"), Some(JsonValue::Bool(false))));
    assert_eq!(text_of(get(&body, "error")), Some("No plugin connected for channel: NOPE".to_string()));
}

#[test]
fn answers_carry_errors_or_results() {
    let mut state: BridgeState<String, u32> = BridgeState::new();
    state.register_session("C".to_string(), "o".to_string(), 1, None, None);
    let a = state.send_command("C", "x", JsonValue::Null, 1, 5).ok().unwrap();
    let b = state.send_command("C", "y", JsonValue::Null, 2, 5).ok().unwrap();
    let (tx, outcome) = state
        .handle_response(&a.request_id, Some(s("ignored")), Some("Node not found".to_string()))
        .unwrap();
    assert_eq!(tx, 1);
    assert_eq!(outcome.err(), Some("Node not found".to_string()));
    let (tx, outcome) = state.handle_response(&b.request_id, None, None).unwrap();
    assert_eq!(tx, 2);
    assert!(matches!(outcome, Ok(JsonValue::Null)));
}

#[test]
fn disconnect_fails_waiting_requests_of_its_channel() {
    let mut state: BridgeState<String, u32> = BridgeState::new();
    state.register_session("A".to_string(), "oa".to_string(), 1, None, None);
    state.register_session("B".to_string(), "ob".to_string(), 1, None, None);
    let _ = state.send_command("A", "x", JsonValue::Null, 1, 5).ok().unwrap();
    let b = state.send_command("B", "x", JsonValue::Null, 2, 5).ok().unwrap();
    let _ = state.send_command("A", "y", JsonValue::Null, 3, 5).ok().unwrap();
    let failed = state.unregister_session("A");
    assert_eq!(failed, vec![1, 3]);
    assert_eq!(plugin_disconnected_error(), "Plugin disconnected");
    assert_eq!(state.session_count(), 1);
    assert!(state.handle_response(&b.request_id, None, None).is_some());
}

#[test]
fn timeouts_and_closed_answers() {
    let mut state: BridgeState<String, u32> = BridgeState::new();
    state.register_session("C".to_string(), "o".to_string(), 1, None, None);
    let a = state.send_command("C", "x", JsonValue::Null, 1, 5).ok().unwrap();
    match state.finish_command(&a.request_id, CommandOutcome::TimedOut, 5) {
        Err(e) => assert_eq!(e.message(), "Command timeout after 5ms"),
        Ok(_) => panic!("a timeout fails"),
    }
    assert!(state.handle_response(&a.request_id, None, None).is_none());
    match state.finish_command("r", CommandOutcome::Closed, 5) {
        Err(e) => assert_eq!(e.message(), "Plugin response channel closed"),
        Ok(_) => panic!("a closed handle fails"),
    }
    match state.finish_command("r", CommandOutcome::Replied(Err("boom".to_string())), 5) {
        Err(e) => assert_eq!(e.message(), "boom"),
        Ok(_) => panic!("a plugin error fails"),
    }
    assert_eq!(BridgeError::SendFailed.message(), "Failed to send command to plugin");
}

#[test]
fn joins_without_a_channel_are_ignored() {
    let mut state: BridgeState<String, u32> = BridgeState::new();
    let mut current: Option<String> = None;
    let action = state.handle_incoming(join(None, obj(vec![])), "o".to_string(), &mut current, 9);
    assert!(matches!(action, IncomingAction::Ignore));
    assert_eq!(current, None);
    assert_eq!(state.session_count(), 0);
    // the payload's sessionId stands in for a missing channel
    let action = state.handle_incoming(join(None, obj(vec![("sessionId", s("S1"))])), "o".to_string(), &mut current, 9);
    assert!(matches!(action, IncomingAction::Reply(_)));
    assert_eq!(current, Some("S1".to_string()));
    let pong = Envelope { id: "p".to_string(), message_type: MessageType::Pong, channel: None, timestamp: 0, payload: None };
    assert!(matches!(state.handle_incoming(pong, "o".to_string(), &mut current, 9), IncomingAction::Ignore));
}

#[test]
fn protocol_basics() {
    assert_eq!(DEFAULT_WS_PORT, 3055);
    assert_eq!(DEFAULT_HTTP_PORT, 3056);
    assert_eq!(default_timeout_ms(), 30_000);
    assert!(now_ms().unwrap() > 1_600_000_000_000);
    let e = envelope("id".to_string(), MessageType::Progress, None, None, 77);
    assert_eq!(e.id, "id");
    assert_eq!(e.timestamp, 77);
    assert_eq!(MessageType::Pong.as_str(), "pong");
    assert_eq!(MessageType::Join.as_str(), "join");
    let w = welcome_envelope(88);
    assert_eq!(w.timestamp, 88);
    assert_eq!(w.message_type, MessageType::Ack);
    assert_eq!(w.id.len(), 36);
    assert_eq!(text_of(get(w.payload.as_ref().unwrap(), "message")), Some("Connected to Jyozu bridge".to_string()));
}

#[test]
fn millis_timestamp_truncates_to_64_bits() {
    assert_eq!(millis_timestamp(0), 0);
    assert_eq!(millis_timestamp(1_700_000_000_123), 1_700_000_000_123);
    assert_eq!(millis_timestamp((1u128 << 64) + 7), 7);
}

#[test]
fn listed_channels_are_distinct() {
    let mut state: BridgeState<String, u32> = BridgeState::new();
    assert!(state.list_sessions().is_empty());
    state.register_session("A".to_string(), "o1".to_string(), 1, None, None);
    state.register_session("A".to_string(), "o2".to_string(), 2, Some("p".to_string()), None);
    state.register_session("B".to_string(), "o3".to_string(), 3, None, None);
    let list = state.list_sessions();
    assert_eq!(list.len(), state.session_count());
    assert_eq!(list.iter().filter(|i| i.channel == "A").count(), 1);
    let a = list.iter().find(|i| i.channel == "A").unwrap();
    assert_eq!(a.joined_at, 2);
    assert_eq!(a.client_name, Some("p".to_string()));
}

#[test]
fn ids_are_version_four_uuid_text() {
    let w = welcome_envelope(0);
    let id: Vec<char> = w.id.chars().collect();
    assert_eq!(id.len(), 36);
    for (i, c) in id.iter().enumerate() {
        if [8, 13, 18, 23].contains(&i) {
            assert_eq!(*c, '-');
        } else {
            assert!(c.is_ascii_digit() || ('a'..='f').contains(c));
        }
    }
    assert_eq!(id[14], '4');
    assert!(['8', '9', 'a', 'b'].contains(&id[19]));
}
