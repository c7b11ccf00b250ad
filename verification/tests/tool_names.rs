use jyozu::legacy_tools::{get_tool_description, get_tool_names, validate_args_against_schema};
use jyozu::json::JsonValue;
use jyozu::tools::{
    canonical_to_legacy_tool, canonical_tool_names, plugin_command_name, resolve_external_tool_name,
    snake_to_camel,
};

#[test]
fn every_tool_has_a_description() {
    for tool in get_tool_names() {
        assert!(
            get_tool_description(&tool).is_some(),
            "missing description for {tool}"
        );
    }
}

#[test]
fn legacy_tool_list_is_complete() {
    let names = get_tool_names();
    assert_eq!(names.len(), 107);
    assert_eq!(names[0], "join_channel");
    assert_eq!(names[106], "scale_selection");
    assert!(get_tool_description("no_such_tool").is_none());
}

#[test]
fn description_carries_name_and_schema() {
    let d = get_tool_description("set_selection").unwrap();
    assert_eq!(d.name, "set_selection");
    assert_eq!(d.description, "Set the current selection to specific nodes");
    match &d.input_schema {
        JsonValue::Object(m) => {
            assert_eq!(m[0].0, "type");
            assert_eq!(m[1].0, "properties");
            match &m[1].1 {
                JsonValue::Object(props) => {
                    assert_eq!(props.len(), 2);
                    assert_eq!(props[0].0, "channel");
                    assert_eq!(props[1].0, "nodeIds");
                    match &props[1].1 {
                        JsonValue::Object(p) => {
                            assert_eq!(p.len(), 2);
                            assert_eq!(p[1].0, "items");
                        }
                        _ => panic!("property schema is an object"),
                    }
                }
                _ => panic!("properties is an object"),
            }
        }
        _ => panic!("schema is an object"),
    }
}

#[test]
fn legacy_arguments_are_checked_by_type() {
    let d = get_tool_description("create_frame").unwrap();
    let ok = vec![
        ("name".to_string(), JsonValue::Str("Frame".to_string())),
        ("x".to_string(), JsonValue::Number("10".to_string())),
        ("extra".to_string(), JsonValue::Bool(true)),
    ];
    assert!(validate_args_against_schema(&d, &ok).is_ok());
    let bad = vec![("x".to_string(), JsonValue::Str("ten".to_string()))];
    assert_eq!(
        validate_args_against_schema(&d, &bad).unwrap_err(),
        "Invalid argument type for x: expected number"
    );
}

#[test]
fn canonical_names_in_discovery_order() {
    let names = canonical_tool_names();
    assert_eq!(
        names,
        vec![
            "figma.get_document",
            "figma.get_page",
            "figma.get_selection",
            "figma.get_node",
            "figma.create_frame",
            "figma.create_text",
            "figma.set_fill",
            "figma.move_node",
            "figma.delete_node",
        ]
    );
}

#[test]
fn external_names_resolve_to_canonical() {
    assert_eq!(resolve_external_tool_name("get_document_info"), Some("figma.get_document"));
    assert_eq!(resolve_external_tool_name("figma.get_document"), Some("figma.get_document"));
    assert_eq!(resolve_external_tool_name("get_node_info"), Some("figma.get_node"));
    assert_eq!(resolve_external_tool_name("delete_node"), Some("figma.delete_node"));
    assert_eq!(resolve_external_tool_name("figma.unknown"), None);
    assert_eq!(resolve_external_tool_name("set_font"), None);
}

#[test]
fn legacy_names_round_trip() {
    for &name in canonical_tool_names() {
        let legacy = canonical_to_legacy_tool(name);
        assert_eq!(resolve_external_tool_name(legacy), Some(name));
        assert_eq!(resolve_external_tool_name(name), Some(name));
    }
    assert_eq!(canonical_to_legacy_tool("figma.get_page"), "get_page_info");
    assert_eq!(canonical_to_legacy_tool("anything_else"), "anything_else");
}

#[test]
fn plugin_commands_for_canonical_tools() {
    let expected = [
        "getDocumentInfo",
        "getPageInfo",
        "getSelection",
        "getNode",
        "createFrame",
        "createText",
        "setFill",
        "moveNode",
        "deleteNode",
    ];
    for (name, cmd) in canonical_tool_names().iter().copied().zip(expected) {
        assert_eq!(plugin_command_name(canonical_to_legacy_tool(name)), cmd);
    }
    assert_eq!(plugin_command_name("set_font"), "setFontName");
}

#[test]
fn snake_case_becomes_camel_case() {
    assert_eq!(snake_to_camel("create_frame"), "createFrame");
    assert_eq!(snake_to_camel("a_b_c"), "aBC");
    assert_eq!(snake_to_camel("_leading"), "Leading");
    assert_eq!(snake_to_camel("trailing_"), "trailing");
    assert_eq!(snake_to_camel("double__under"), "doubleUnder");
    assert_eq!(snake_to_camel("plain"), "plain");
    assert_eq!(snake_to_camel(""), "");
    assert_eq!(snake_to_camel("stra\u{df}e_\u{df}"), "stra\u{df}eSS");
}

#[test]
fn described_tools_are_exactly_the_listed_ones() {
    assert!(get_tool_description("figma.get_document").is_none());
    for tool in get_tool_names() {
        let d = get_tool_description(&tool).unwrap();
        assert_eq!(d.name, tool);
        match &d.input_schema {
            JsonValue::Object(m) => {
                assert_eq!(m[0], ("type".to_string(), JsonValue::Str("object".to_string())));
                match &m[1].1 {
                    JsonValue::Object(props) => {
                        let channel = props.iter().find(|p| p.0 == "channel").unwrap();
                        assert_eq!(
                            channel.1,
                            JsonValue::Object(vec![("type".to_string(), JsonValue::Str("string".to_string()))])
                        );
                    }
                    _ => panic!("properties is not an object"),
                }
            }
            _ => panic!("schema is not an object"),
        }
    }
}

#[test]
fn canonical_tools_have_listed_legacy_descriptions() {
    let names = get_tool_names();
    for c in canonical_tool_names() {
        let legacy = canonical_to_legacy_tool(c);
        assert!(names.iter().any(|n| n == legacy), "{legacy} not listed");
        assert!(get_tool_description(legacy).is_some());
    }
}

#[test]
fn camel_case_is_idempotent() {
    assert_eq!(snake_to_camel("create_frame"), "createFrame");
    assert_eq!(snake_to_camel(&snake_to_camel("create_frame")), "createFrame");
    assert_eq!(snake_to_camel("plain"), "plain");
    assert_eq!(snake_to_camel("a__b_"), "aB");
    assert!(!snake_to_camel("set_fill_color").contains('_'));
}
