use jyozu::call::{
    bridge_command_body, call_envelope, canonical_input_to_bridge_input, check_stdin_payload,
    default_schema_version, error_tuple, finish_call, infer_channel, interpret_bridge_reply,
    map_bridge_error, normalize_result, plan_call, prepare_call, request_from_args,
    request_from_stdin, resolve_session_id, validate_contract_input, BridgeSession, CallError,
    CallPlan, CallRequest, PreparedCall, StdinRequest,
};
use jyozu::contracts::get_canonical_tool_contract;
use jyozu::json::JsonValue;
use jyozu::session::{command_response, BridgeError};
use serde_json::Value;

fn to_serde(v: &JsonValue) -> Value {
    match v {
        JsonValue::Null => Value::Null,
        JsonValue::Bool(b) => Value::Bool(*b),
        JsonValue::Number(n) => Value::Number(n.parse().unwrap()),
        JsonValue::Str(s) => Value::String(s.clone()),
        JsonValue::Array(items) => Value::Array(items.iter().map(to_serde).collect()),
        JsonValue::Object(m) => {
            let mut out = serde_json::Map::new();
            for (k, v) in m {
                out.insert(k.clone(), to_serde(v));
            }
            Value::Object(out)
        }
    }
}

fn from_serde(v: &Value) -> JsonValue {
    match v {
        Value::Null => JsonValue::Null,
        Value::Bool(b) => JsonValue::Bool(*b),
        Value::Number(n) => JsonValue::Number(n.to_string()),
        Value::String(s) => JsonValue::Str(s.clone()),
        Value::Array(items) => JsonValue::Array(items.iter().map(from_serde).collect()),
        Value::Object(m) => {
            JsonValue::Object(m.iter().map(|(k, v)| (k.clone(), from_serde(v))).collect())
        }
    }
}

fn parse(text: &str) -> JsonValue {
    from_serde(&serde_json::from_str(text).unwrap())
}

fn members(text: &str) -> Vec<(String, JsonValue)> {
    match parse(text) {
        JsonValue::Object(m) => m,
        _ => panic!("not an object"),
    }
}

fn serde(text: &str) -> Value {
    serde_json::from_str(text).unwrap()
}

fn request(tool: &str, input: &str) -> CallRequest {
    CallRequest {
        tool: tool.to_string(),
        schema_version: default_schema_version(),
        input: parse(input),
        context: parse("{}"),
    }
}

fn err_parts(e: &CallError) -> (String, String, Value) {
    (e.code.clone(), e.message.clone(), to_serde(&e.details))
}

#[test]
fn contract_is_found_by_either_name() {
    let c = get_canonical_tool_contract("get_node_info").unwrap();
    let v = to_serde(&c);
    assert_eq!(v["name"], "figma.get_node");
    assert_eq!(v["provider"], "figma");
    assert_eq!(v["input_schema"]["required"], serde(r#"["node_id"]"#));
    assert_eq!(v["input_schema"]["additionalProperties"], Value::Bool(false));
    assert!(get_canonical_tool_contract("nope").is_none());
}

#[test]
fn delete_contract_is_marked_destructive() {
    let v = to_serde(&get_canonical_tool_contract("figma.delete_node").unwrap());
    assert_eq!(
        v["safety"],
        serde(r#"{"destructive": true, "requires_confirmation": true, "supports_dry_run": true, "policy_tags": ["shared_resource_risk"]}"#)
    );
    assert_eq!(v["side_effects"], serde(r#"["writes_figma_document", "deletes_user_content"]"#));
    let g = to_serde(&get_canonical_tool_contract("figma.get_page").unwrap());
    assert_eq!(g["safety"]["destructive"], Value::Bool(false));
}

#[test]
fn contract_input_is_validated() {
    let contract = get_canonical_tool_contract("figma.create_frame").unwrap();
    let ok = members(r#"{"name": "F", "x": 1, "y": 2, "width": 3, "height": 4}"#);
    assert!(validate_contract_input(&contract, &ok).is_ok());

    let missing = members(r#"{"name": "F", "x": 1, "y": 2, "width": 3}"#);
    let e = validate_contract_input(&contract, &missing).unwrap_err();
    assert_eq!(
        err_parts(&e),
        (
            "invalid_input".to_string(),
            "Missing required argument: height".to_string(),
            serde(r#"{"field": "height"}"#)
        )
    );

    let unexpected = members(r#"{"name": "F", "x": 1, "y": 2, "width": 3, "height": 4, "color": "red"}"#);
    let e = validate_contract_input(&contract, &unexpected).unwrap_err();
    assert_eq!(e.message, "Unexpected argument: color");
    assert_eq!(to_serde(&e.details), serde(r#"{"field": "color"}"#));

    let wrong = members(r#"{"name": 5, "x": 1, "y": 2, "width": 3, "height": 4}"#);
    let e = validate_contract_input(&contract, &wrong).unwrap_err();
    assert_eq!(e.message, "Invalid argument type for name: expected string");
    assert_eq!(to_serde(&e.details), serde(r#"{"field": "name", "expected": "string"}"#));
}

#[test]
fn prepare_rejects_unknown_tools_and_bad_input() {
    let e = prepare_call(request("figma.nope", "{}")).err().unwrap();
    assert_eq!(
        err_parts(&e),
        ("unknown_tool".to_string(), "Unknown tool: figma.nope".to_string(), serde("{}"))
    );
    let e = prepare_call(request("get_document_info", "[1]")).err().unwrap();
    assert_eq!(e.code, "invalid_input");
    assert_eq!(e.message, "input must be an object");
    let p = prepare_call(request("get_document_info", r#"{"session_id": "S"}"#)).ok().unwrap();
    assert_eq!(p.canonical_tool, "figma.get_document");
}

fn prepared(tool: &str, input: &str) -> PreparedCall {
    prepare_call(request(tool, input)).ok().unwrap()
}

#[test]
fn delete_without_confirmation_is_refused() {
    let p = prepared("figma.delete_node", r#"{"node_id": "1:2", "confirm": false}"#);
    let e = plan_call(&p, "S".to_string()).err().unwrap();
    assert_eq!(
        err_parts(&e),
        (
            "confirmation_required".to_string(),
            "Destructive action requires confirm=true".to_string(),
            serde(r#"{"field": "confirm"}"#)
        )
    );
}

#[test]
fn delete_dry_run_answers_without_sending() {
    let p = prepared("figma.delete_node", r#"{"node_id": "1:2", "confirm": true, "dry_run": true}"#);
    match plan_call(&p, "S".to_string()).ok().unwrap() {
        CallPlan::Done(v) => assert_eq!(
            to_serde(&v),
            serde(r#"{"node_id": "1:2", "deleted": false, "dry_run": true}"#)
        ),
        CallPlan::Send { .. } => panic!("a dry run sends nothing"),
    }
}

#[test]
fn confirmed_delete_is_sent_to_plugin() {
    let p = prepared("delete_node", r#"{"node_id": "1:2", "confirm": true, "session_id": "S"}"#);
    match plan_call(&p, "S".to_string()).ok().unwrap() {
        CallPlan::Send { session_id, command, params } => {
            assert_eq!(session_id, "S");
            assert_eq!(command, "deleteNode");
            assert_eq!(to_serde(&params), serde(r#"{"nodeId": "1:2", "confirm": true}"#));
        }
        CallPlan::Done(_) => panic!("a confirmed delete is sent"),
    }
}

#[test]
fn bridge_input_renames_and_drops_routing_keys() {
    let input = members(
        r#"{"session_id": "S", "channel": "C", "page_id": "p", "node_id": "n", "parent_id": "q", "dry_run": false, "text": "hi", "x": 1}"#,
    );
    let v = to_serde(&canonical_input_to_bridge_input("figma.create_text", "S", &input));
    assert_eq!(
        v,
        serde(r#"{"pageId": "p", "nodeId": "n", "parentId": "q", "dryRun": false, "characters": "hi", "x": 1}"#)
    );
    let w = to_serde(&canonical_input_to_bridge_input("figma.move_node", "S", &input));
    assert_eq!(w["text"], "hi");
    assert!(w.get("session_id").is_none());
    assert!(w.get("channel").is_none());
}

#[test]
fn bridge_errors_get_codes() {
    let cases = [
        ("Bridge unavailable. Start it", "provider_unavailable"),
        ("No plugin connected for channel: X", "provider_unavailable"),
        ("Command timeout after 30000ms", "timeout"),
        ("Node not found: 1:2", "not_found"),
        ("Page not found", "not_found"),
        ("Plugin disconnected", "internal_error"),
    ];
    for (message, code) in cases {
        let e = map_bridge_error(message.to_string());
        assert_eq!(err_parts(&e), (code.to_string(), message.to_string(), serde("{}")));
    }
}

#[test]
fn results_are_normalized() {
    let doc = prepared("figma.get_document", "{}");
    let raw = parse(r#"{"id": "D", "name": "Doc", "children": [{"id": "P1", "name": "Page 1", "type": "PAGE"}, {"id": "P2"}]}"#);
    let v = normalize_result(doc.canonical_tool, &doc.input, &raw).ok().unwrap();
    assert_eq!(
        to_serde(&v),
        serde(r#"{"document_id": "D", "name": "Doc", "pages": [{"id": "P1", "name": "Page 1"}, {"id": "P2", "name": null}]}"#)
    );
    let v = normalize_result("figma.get_selection", &doc.input, &parse(r#"[{"id": "a", "name": "A", "type": "FRAME", "x": 1}]"#))
        .ok()
        .unwrap();
    assert_eq!(to_serde(&v), serde(r#"{"nodes": [{"id": "a", "name": "A", "type": "FRAME"}]}"#));
    let v = normalize_result("figma.get_selection", &doc.input, &parse("{}")).ok().unwrap();
    assert_eq!(to_serde(&v), serde(r#"{"nodes": []}"#));
    let v = normalize_result("figma.get_page", &doc.input, &parse(r#"{"id": "P", "name": "N", "childCount": 3}"#)).ok().unwrap();
    assert_eq!(to_serde(&v), serde(r#"{"id": "P", "name": "N", "node_count": 3}"#));
    let v = normalize_result("figma.get_node", &doc.input, &parse(r#"{"id": "n", "parentId": "p", "x": 1.5}"#)).ok().unwrap();
    assert_eq!(
        to_serde(&v),
        serde(r#"{"id": "n", "name": null, "type": null, "parent_id": "p", "x": 1.5, "y": null, "width": null, "height": null}"#)
    );
    let v = normalize_result("figma.create_frame", &doc.input, &parse(r#"{"id": "f", "name": "F"}"#)).ok().unwrap();
    assert_eq!(to_serde(&v), serde(r#"{"node_id": "f", "name": "F", "type": "FRAME"}"#));
    let text_input = members(r#"{"text": "hello", "x": 1, "y": 2}"#);
    let v = normalize_result("figma.create_text", &text_input, &parse(r#"{"id": "t"}"#)).ok().unwrap();
    assert_eq!(to_serde(&v), serde(r#"{"node_id": "t", "type": "TEXT", "text": "hello"}"#));
    let fill_input = members(r#"{"node_id": "n", "color": {"r": 1, "g": 0, "b": 0}}"#);
    let v = normalize_result("figma.set_fill", &fill_input, &parse("{}")).ok().unwrap();
    assert_eq!(to_serde(&v), serde(r#"{"node_id": "n", "fill_applied": true}"#));
    let v = normalize_result("figma.set_fill", &fill_input, &parse(r#"{"success": false}"#)).ok().unwrap();
    assert_eq!(to_serde(&v), serde(r#"{"node_id": "n", "fill_applied": false}"#));
    let move_input = members(r#"{"node_id": "n", "x": 4, "y": 5}"#);
    let v = normalize_result("figma.move_node", &move_input, &parse("null")).ok().unwrap();
    assert_eq!(to_serde(&v), serde(r#"{"node_id": "n", "x": 4, "y": 5}"#));
    let del_input = members(r#"{"node_id": "n", "confirm": true}"#);
    let v = normalize_result("figma.delete_node", &del_input, &parse(r#"{"success": true}"#)).ok().unwrap();
    assert_eq!(to_serde(&v), serde(r#"{"node_id": "n", "deleted": true, "dry_run": false}"#));
    let e = normalize_result("figma.other", &del_input, &parse("{}")).err().unwrap();
    assert_eq!(e.code, "unknown_tool");
    assert_eq!(e.message, "Unsupported canonical tool: figma.other");
}

#[test]
fn finishing_a_call() {
    let p = prepared("figma.create_frame", r#"{"name": "F", "x": 1, "y": 2, "width": 3, "height": 4}"#);
    let v = finish_call(&p, Ok(parse(r#"{"id": "9:9", "name": "F"}"#))).ok().unwrap();
    assert_eq!(to_serde(&v), serde(r#"{"node_id": "9:9", "name": "F", "type": "FRAME"}"#));
    let e = finish_call(&p, Err("Command timeout after 10ms".to_string())).err().unwrap();
    assert_eq!(e.code, "timeout");
}

#[test]
fn sessions_are_inferred_only_when_unique() {
    let one = vec![BridgeSession { channel: "A".to_string(), joined_at: 1, client_name: None, client_version: None }];
    assert_eq!(infer_channel(&one), Ok("A".to_string()));
    assert_eq!(infer_channel(&vec![]), Err("No connected plugin sessions".to_string()));
    let two = vec![
        BridgeSession { channel: "A".to_string(), joined_at: 1, client_name: None, client_version: None },
        BridgeSession { channel: "B".to_string(), joined_at: 2, client_name: None, client_version: None },
    ];
    assert_eq!(
        infer_channel(&two),
        Err("Multiple plugin sessions active; channel must be specified".to_string())
    );

    assert_eq!(resolve_session_id(&members("{}"), Some(&one)), Ok("A".to_string()));
    assert_eq!(
        resolve_session_id(&members(r#"{"session_id": "S", "channel": "C"}"#), Some(&two)),
        Ok("S".to_string())
    );
    assert_eq!(resolve_session_id(&members(r#"{"channel": "C"}"#), Some(&two)), Ok("C".to_string()));
    assert!(resolve_session_id(&members("{}"), Some(&two)).unwrap_err().starts_with("No session_id provided"));
    assert_eq!(
        resolve_session_id(&members(r#"{"session_id": "S"}"#), None),
        Err("Bridge unavailable. Start it with: figma-provider bridge-serve".to_string())
    );
}

#[test]
fn bridge_replies_are_read() {
    assert_eq!(
        interpret_bridge_reply(&parse(r#"{"success": true, "result": {"a": 1}}"#)).map(|v| to_serde(&v)),
        Ok(serde(r#"{"a": 1}"#))
    );
    assert_eq!(
        interpret_bridge_reply(&parse(r#"{"success": true}"#)).map(|v| to_serde(&v)),
        Ok(Value::Null)
    );
    assert_eq!(
        interpret_bridge_reply(&parse(r#"{"success": false, "error": "boom"}"#)).map(|v| to_serde(&v)),
        Err("boom".to_string())
    );
    assert_eq!(
        interpret_bridge_reply(&parse(r#"{"success": "yes"}"#)).map(|v| to_serde(&v)),
        Err("Bridge command failed".to_string())
    );
    assert_eq!(
        to_serde(&bridge_command_body("getNode", parse(r#"{"nodeId": "1"}"#))),
        serde(r#"{"command": "getNode", "params": {"nodeId": "1"}, "timeout_ms": 30000}"#)
    );
}

#[test]
fn call_envelopes() {
    let ok = call_envelope("get_document_info", Ok(parse(r#"{"a": 1}"#)), 12);
    assert_eq!(
        to_serde(&ok),
        serde(r#"{"ok": true, "tool": "get_document_info", "provider": "figma", "schema_version": "1", "result": {"a": 1}, "meta": {"duration_ms": 12, "warnings": [], "artifacts": []}}"#)
    );
    let err = error_tuple("timeout", "slow".to_string(), parse("{}"));
    let bad = call_envelope("figma.get_page", Err(err), 7);
    assert_eq!(
        to_serde(&bad),
        serde(r#"{"ok": false, "tool": "figma.get_page", "provider": "figma", "schema_version": "1", "error": {"code": "timeout", "message": "slow", "details": {}}, "meta": {"duration_ms": 7, "warnings": [], "artifacts": []}}"#)
    );
}

#[test]
fn requests_are_read() {
    let r = request_from_args(Some("get_selection".to_string()), parse("{}")).ok().unwrap();
    assert_eq!(r.tool, "get_selection");
    assert_eq!(r.schema_version, "1");
    assert_eq!(to_serde(&r.context), serde("{}"));
    assert_eq!(
        request_from_args(None, parse("{}")).err().unwrap(),
        "Tool name required when using positional args"
    );
    assert!(matches!(
        request_from_stdin(None, parse(r#"{"tool": "figma.get_page", "input": {}}"#)),
        Ok(StdinRequest::Canonical)
    ));
    match request_from_stdin(Some("move_node".to_string()), parse(r#"{"node_id": "1"}"#)) {
        Ok(StdinRequest::Plain(r)) => {
            assert_eq!(r.tool, "move_node");
            assert_eq!(to_serde(&r.input), serde(r#"{"node_id": "1"}"#));
        }
        _ => panic!("a plain payload is the tool's input"),
    }
    assert_eq!(
        request_from_stdin(None, parse(r#"{"node_id": "1"}"#)).err().unwrap(),
        "Tool name required when stdin payload is not a canonical request envelope"
    );
    assert!(check_stdin_payload("{}").is_ok());
    assert!(check_stdin_payload("").unwrap_err().starts_with("No request provided."));
}

#[test]
fn every_contract_is_named_closed_and_guarded() {
    for &name in jyozu::tools::canonical_tool_names() {
        let v = to_serde(&get_canonical_tool_contract(name).unwrap());
        assert_eq!(v["name"], name);
        assert_eq!(v["input_schema"]["additionalProperties"], Value::Bool(false));
        let destructive = name == "figma.delete_node";
        assert_eq!(v["safety"]["destructive"], Value::Bool(destructive));
        assert_eq!(v["safety"]["requires_confirmation"], Value::Bool(destructive));
        assert_eq!(v["safety"]["supports_dry_run"], Value::Bool(destructive));
    }
}

#[test]
fn bridge_failures_are_classified_by_the_provider() {
    let e = map_bridge_error(BridgeError::NoPluginConnected("TESTCHAN".to_string()).message());
    assert_eq!(e.code, "provider_unavailable");
    let e = map_bridge_error(BridgeError::Timeout(30_000).message());
    assert_eq!(e.code, "timeout");
    assert_eq!(e.message, "Command timeout after 30000ms");
}

#[test]
fn command_answers_read_back_unchanged() {
    let body = command_response(Ok(parse(r#"{"document": "ok"}"#)));
    assert_eq!(
        interpret_bridge_reply(&body).map(|v| to_serde(&v)),
        Ok(serde(r#"{"document": "ok"}"#))
    );
    let body = command_response(Err(BridgeError::Plugin("Node not found".to_string())));
    assert_eq!(
        interpret_bridge_reply(&body).map(|v| to_serde(&v)),
        Err("Node not found".to_string())
    );
}

#[test]
fn contracts_are_complete_and_follow_tool_kind() {
    let keys = [
        "name", "provider", "schema_version", "description", "input_schema", "output_schema",
        "capabilities", "side_effects", "determinism", "cost", "verification", "safety",
    ];
    for c in jyozu::tools::canonical_tool_names() {
        let contract = get_canonical_tool_contract(c).unwrap();
        match &contract {
            JsonValue::Object(m) => {
                let got: Vec<&str> = m.iter().map(|p| p.0.as_str()).collect();
                assert_eq!(got, keys);
            }
            _ => panic!("contract is not an object"),
        }
        let v = to_serde(&contract);
        assert_eq!(v["name"], serde(&format!("\"{c}\"")));
        assert_eq!(v["provider"], serde("\"figma\""));
        assert_eq!(v["schema_version"], serde("\"1\""));
        assert_eq!(v["verification"]["status"], serde("\"verified\""));
        assert_eq!(v["input_schema"]["additionalProperties"], serde("false"));
        if let Some(req) = v["input_schema"]["required"].as_array() {
            for r in req {
                assert!(v["input_schema"]["properties"].get(r.as_str().unwrap()).is_some());
            }
        }
        if c.starts_with("figma.get_") {
            assert_eq!(v["capabilities"], serde(r#"["read_external_application"]"#));
            assert_eq!(v["side_effects"], serde("[]"));
        } else {
            assert_eq!(v["capabilities"], serde(r#"["mutates_external_application"]"#));
            assert!(v["side_effects"].as_array().unwrap().contains(&serde("\"writes_figma_document\"")));
        }
    }
}

#[test]
fn normalized_results_carry_required_keys() {
    let empty = members("{}");
    for c in jyozu::tools::canonical_tool_names() {
        let v = to_serde(&normalize_result(c, &empty, &parse("{}")).ok().unwrap());
        let contract = to_serde(&get_canonical_tool_contract(c).unwrap());
        for r in contract["output_schema"]["required"].as_array().unwrap() {
            assert!(v.get(r.as_str().unwrap()).is_some(), "{c} lacks {r}");
        }
    }
    let e = normalize_result("get_node_info", &empty, &parse("{}")).err().unwrap();
    assert_eq!(err_parts(&e), ("unknown_tool".to_string(), "Unsupported canonical tool: get_node_info".to_string(), serde("{}")));
}
