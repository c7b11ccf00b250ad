use jyozu::call::BridgeSession;
use jyozu::diagnostics::{doctor_report, status_report, BridgeHealth};
use jyozu::json::JsonValue;
use jyozu::provider::{provider_manifest, tools_list};
use jyozu::text::contains;

fn get<'a>(v: &'a JsonValue, key: &str) -> Option<&'a JsonValue> {
    match v {
        JsonValue::Object(m) => m.iter().find(|(k, _)| k == key).map(|(_, v)| v),
        _ => None,
    }
}

fn text(v: Option<&JsonValue>) -> String {
    match v {
        Some(JsonValue::Str(t)) => t.clone(),
        other => panic!("not a string: {}", other.is_some()),
    }
}

fn flag(v: Option<&JsonValue>) -> bool {
    match v {
        Some(JsonValue::Bool(b)) => *b,
        _ => panic!("not a boolean"),
    }
}

fn number(v: Option<&JsonValue>) -> String {
    match v {
        Some(JsonValue::Number(n)) => n.clone(),
        _ => panic!("not a number"),
    }
}

fn session(channel: &str) -> BridgeSession {
    BridgeSession { channel: channel.to_string(), joined_at: 42, client_name: Some("p".to_string()), client_version: None }
}

#[test]
fn manifest_lists_canonical_tools() {
    let m = provider_manifest();
    assert_eq!(m.name, "figma");
    assert_eq!(m.version, "0.1.0");
    assert_eq!(m.tools.len(), 9);
    assert_eq!(m.tools[8], "figma.delete_node");
    assert_eq!(m.capabilities, vec!["diagnostics", "external_application", "mutable_operations"]);
    let j = m.to_json();
    assert_eq!(text(get(&j, "provider_type")), "external-executable");
    assert_eq!(text(get(get(&j, "runtime").unwrap(), "entrypoint")), "figma-provider");
}

#[test]
fn tools_list_summarizes_contracts() {
    let t = tools_list();
    assert_eq!(text(get(&t, "provider")), "figma");
    match get(&t, "tools") {
        Some(JsonValue::Array(items)) => {
            assert_eq!(items.len(), 9);
            assert_eq!(text(get(&items[0], "name")), "figma.get_document");
            assert_eq!(text(get(&items[0], "description")), "Get metadata and pages for the active Figma document");
            assert_eq!(text(get(&items[0], "verification_status")), "verified");
        }
        _ => panic!("tools is an array"),
    }
}

#[test]
fn status_reflects_bridge_and_sessions() {
    let health = BridgeHealth { status: "ok".to_string(), ws_port: 3055, http_port: 3056, session_count: 1 };
    let st = status_report(&Some(health), &vec![session("A")]);
    assert!(flag(get(&st, "ok")));
    assert!(flag(get(&st, "plugin_connected")));
    assert_eq!(number(get(&st, "active_sessions")), "1");
    assert_eq!(number(get(get(&st, "bridge").unwrap(), "ws_port")), "3055");
    match get(&st, "sessions") {
        Some(JsonValue::Array(items)) => {
            assert_eq!(text(get(&items[0], "channel")), "A");
            assert_eq!(number(get(&items[0], "joined_at")), "42");
            assert!(matches!(get(&items[0], "client_version"), Some(JsonValue::Null)));
        }
        _ => panic!("sessions is an array"),
    }
    let down = status_report(&None, &vec![]);
    assert!(!flag(get(&down, "ok")));
    assert!(matches!(get(&down, "bridge"), Some(JsonValue::Null)));
}

#[test]
fn doctor_checks() {
    let d = doctor_report(false, &vec![], "http://127.0.0.1:3056");
    assert!(!flag(get(&d, "ok")));
    match get(&d, "checks") {
        Some(JsonValue::Array(c)) => {
            assert_eq!(
                text(get(&c[0], "message")),
                "Bridge not responding on http://127.0.0.1:3056. Start it with: figma-provider bridge-serve"
            );
            assert_eq!(text(get(&c[1], "message")), "No active plugin connection found");
            assert_eq!(text(get(&c[2], "message")), "No plugin session available to infer");
            assert!(flag(get(&c[2], "ok")));
        }
        _ => panic!("checks is an array"),
    }
    let d = doctor_report(true, &vec![session("A"), session("B")], "B");
    assert!(flag(get(&d, "ok")));
    match get(&d, "checks") {
        Some(JsonValue::Array(c)) => {
            assert_eq!(text(get(&c[0], "message")), "Bridge reachable at B");
            assert_eq!(text(get(&c[1], "message")), "2 active plugin session(s)");
            assert_eq!(text(get(&c[2], "message")), "Multiple sessions active; explicit session_id required");
            assert!(!flag(get(&c[2], "ok")));
        }
        _ => panic!("checks is an array"),
    }
    let d = doctor_report(true, &vec![session("A")], "B");
    match get(&d, "checks") {
        Some(JsonValue::Array(c)) => {
            assert_eq!(text(get(&c[2], "message")), "Single plugin session detected; session_id may be omitted");
        }
        _ => panic!("checks is an array"),
    }
}

#[test]
fn substring_search() {
    assert!(contains("Command timeout after 5ms", "timeout"));
    assert!(contains("abc", ""));
    assert!(!contains("ab", "abc"));
    assert!(!contains("Plugin disconnected", "Node not found"));
}
