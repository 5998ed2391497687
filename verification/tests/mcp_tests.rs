use chess_base::identity::CurrentUser;
use chess_base::json::{read_json, Json};
use chess_base::mcp::{
    anonymous_allowlist, call_gate, check_request, echo, initialize_result, method_not_found,
    parse_request, request_error, restrict_to_allowlist, restrict_to_non_gated, route_method,
    rpc_error, rpc_success, tool_call_name, tool_envelope, unauthorized_error, unknown_tool,
    tools_call_step, RequestCheck, Route, ToolOutcome,
};
use chess_base::symmetry::{carve_outs, known_gaps, route_manifest};

fn json(text: &str) -> Json {
    read_json(text.as_bytes()).expect("valid JSON")
}

fn member<'a>(v: &'a Json, key: &str) -> Option<&'a Json> {
    match v {
        Json::Object(m) => m.iter().find(|(k, _)| k == key).map(|(_, v)| v),
        _ => None,
    }
}

fn tool_names(list: &Json) -> Vec<String> {
    match member(list, "tools") {
        Some(Json::Array(items)) => items
            .iter()
            .map(|t| match member(t, "name") {
                Some(Json::Str(n)) => n.clone(),
                _ => String::new(),
            })
            .collect(),
        _ => vec![],
    }
}

fn check_envelope_error(env: &Json) {
    assert!(matches!(member(env, "isError"), Some(Json::Bool(true))));
    match member(env, "content") {
        Some(Json::Array(items)) => {
            assert!(matches!(member(&items[0], "text"), Some(Json::Str(t)) if t == "boom"))
        },
        _ => panic!("content array"),
    }
}

fn check_envelope_ok(env: &Json) {
    assert!(member(env, "isError").is_none());
    match member(env, "content") {
        Some(Json::Array(items)) => {
            assert!(matches!(member(&items[0], "type"), Some(Json::Str(t)) if t == "text"))
        },
        _ => panic!("content array"),
    }
}

#[test]
fn mcp_error_outcome_sets_is_error_flag() {
    check_envelope_error(&tool_envelope(ToolOutcome::error("boom".to_string())));
}

#[test]
fn mcp_ok_outcome_omits_is_error_flag() {
    check_envelope_ok(&tool_envelope(ToolOutcome::ok("hi".to_string())));
}

#[test]
fn mod_error_outcome_sets_is_error_flag() {
    check_envelope_error(&tool_envelope(ToolOutcome::error("boom".to_string())));
}

#[test]
fn mod_ok_outcome_omits_is_error_flag() {
    check_envelope_ok(&tool_envelope(ToolOutcome::ok("hi".to_string())));
}

#[test]
fn restrict_to_allowlist_keeps_only_allowlisted_tools() {
    let mut list = json(
        r#"{"tools":[{"name":"echo"},{"name":"study_create"},{"name":"search_headers"},{"name":"engine_analyse"}]}"#,
    );
    restrict_to_allowlist(&mut list);
    assert_eq!(tool_names(&list), vec!["echo", "search_headers"]);
}

#[test]
fn restrict_to_non_gated_keeps_only_non_mutating_tools() {
    let mut list = json(
        r#"{"tools":[{"name":"echo"},{"name":"study_create"},{"name":"study_get"},{"name":"folder_create"}]}"#,
    );
    let mutating = vec!["study_create".to_string(), "folder_create".to_string()];
    restrict_to_non_gated(&mut list, &mutating);
    assert_eq!(tool_names(&list), vec!["echo", "study_get"]);
}

#[test]
fn anonymous_allowlist_matches_the_issue_192_read_only_data_tools() {
    let allow = anonymous_allowlist();
    for tool in [
        "echo",
        "list_databases",
        "db_list_games",
        "db_read_game",
        "db_position_report",
        "db_reference_games",
        "db_export_games",
        "search_headers",
    ] {
        assert!(allow.contains(&tool), "missing {tool}");
    }
    assert_eq!(allow.len(), 8);
}

#[test]
fn carve_outs_and_known_gaps_are_documented() {
    assert!(!carve_outs().is_empty());
    assert!(!known_gaps().is_empty());
}

#[test]
fn route_manifest_maps_routes_to_tools() {
    let rows = route_manifest();
    assert!(rows.iter().any(|r| r.method == "POST" && r.path == "/api/studies" && r.tool == "study_create"));
    assert!(rows.iter().all(|r| !r.tool.is_empty()));
}

#[test]
fn parse_request_accepts_a_well_formed_request() {
    let body = br#"{"jsonrpc":"2.0","id":7,"method":"tools/list"}"#;
    match parse_request(body) {
        RequestCheck::Valid { method, echo_id, has_params } => {
            assert_eq!(method, "tools/list");
            assert!(echo_id);
            assert!(!has_params);
        },
        _ => panic!("expected a valid request"),
    }
    let value = json(r#"{"jsonrpc":"2.0","id":7,"method":"tools/list"}"#);
    assert!(matches!(member(&value, "id"), Some(Json::UInt(7))));
}

#[test]
fn parse_request_maps_invalid_json_to_parse_error() {
    let check = parse_request(b"{not json");
    assert!(matches!(check, RequestCheck::ParseError));
    assert_eq!(request_error(&check).expect("framed error").code, -32700);
}

#[test]
fn parse_request_rejects_a_missing_method_with_invalid_request() {
    let check = parse_request(br#"{"jsonrpc":"2.0","id":3}"#);
    assert!(matches!(check, RequestCheck::Invalid { echo_id: true }));
    assert_eq!(request_error(&check).expect("framed error").code, -32600);
}

#[test]
fn parse_request_rejects_a_wrong_jsonrpc_version() {
    let check = parse_request(br#"{"jsonrpc":"1.0","id":1,"method":"x"}"#);
    assert_eq!(request_error(&check).expect("framed error").code, -32600);
}

#[test]
fn parse_request_rejects_a_non_string_method() {
    let check = parse_request(br#"{"jsonrpc":"2.0","id":1,"method":42}"#);
    assert_eq!(request_error(&check).expect("framed error").code, -32600);
}

#[test]
fn parse_request_drops_a_non_scalar_id() {
    let check = parse_request(br#"{"jsonrpc":"2.0","id":{"a":1},"method":42}"#);
    assert!(matches!(check, RequestCheck::Invalid { echo_id: false }));
}

#[test]
fn null_params_count_as_absent() {
    let value = json(r#"{"jsonrpc":"2.0","method":"tools/call","params":null}"#);
    assert!(matches!(check_request(&value), RequestCheck::Valid { has_params: false, echo_id: false, .. }));
}

#[test]
fn gates_for_anonymous_and_read_only_callers() {
    let anon = CurrentUser::anonymous();
    let e = call_gate(&anon, "study_create", true).expect("gated");
    assert_eq!(e.code, -32001);
    assert_eq!(e.message, "Authentication required: `study_create` is not available to anonymous callers.");
    assert!(call_gate(&anon, "echo", false).is_none());
    let ro = CurrentUser { id: "t".to_string(), is_admin: false, public: false, read_only: true, global_only: false };
    let e = call_gate(&ro, "study_create", true).expect("gated");
    assert_eq!(e.message, "This token is read-only and cannot call `study_create`.");
    assert!(call_gate(&ro, "study_get", false).is_none());
}

#[test]
fn routing_and_method_errors() {
    assert!(matches!(route_method("notifications/initialized"), Route::Initialized));
    assert!(matches!(route_method("tools/call"), Route::ToolsCall));
    assert!(matches!(route_method("nope"), Route::NotFound));
    let e = method_not_found("nope");
    assert_eq!((e.code, e.message.as_str()), (-32601, "Method not found: nope"));
    let e = unknown_tool("x");
    assert_eq!((e.code, e.message.as_str()), (-32602, "Unknown tool: x"));
    assert_eq!(tool_call_name(&None).err().expect("missing params").message, "Missing params");
    assert_eq!(tool_call_name(&Some(json(r#"{"arguments":{}}"#))).ok(), Some(String::new()));
}

#[test]
fn responses_frame_the_id() {
    match rpc_success(Some(Json::UInt(1)), Json::Null) {
        Json::Object(m) => {
            assert_eq!(m.len(), 3);
            assert_eq!(m[1].0, "id");
            assert_eq!(m[2].0, "result");
        },
        _ => panic!("object"),
    }
    match rpc_error(None, unauthorized_error()) {
        Json::Object(m) => {
            assert_eq!(m.len(), 2);
            assert_eq!(m[1].0, "error");
            assert!(matches!(member(&m[1].1, "code"), Some(Json::NegInt(-32000))));
        },
        _ => panic!("object"),
    }
}

#[test]
fn initialize_names_the_server_and_protocol() {
    let r = initialize_result("1.2.3");
    assert!(matches!(member(&r, "protocolVersion"), Some(Json::Str(v)) if v == "2025-03-26"));
    let info = member(&r, "serverInfo").expect("server info");
    assert!(matches!(member(info, "version"), Some(Json::Str(v)) if v == "1.2.3"));
    assert!(matches!(member(&r, "instructions"), Some(Json::Str(t)) if t.starts_with("# chess-base")));
}

#[test]
fn echo_returns_its_text() {
    let ok = echo(&json(r#"{"text":"hi"}"#));
    assert!(!ok.is_error);
    assert_eq!(ok.text, "hi");
    let err = echo(&json("{}"));
    assert!(err.is_error);
    assert_eq!(err.text, "Invalid arguments: missing string field `text`");
}

#[test]
fn every_tool_listed_to_an_anonymous_caller_can_be_called() {
    let mut list = json(
        r#"{"tools":[{"name":"echo"},{"name":"study_create"},{"name":"db_read_game"},{"name":"engine_analyse"},{"title":"no name"}]}"#,
    );
    restrict_to_allowlist(&mut list);
    let anon = CurrentUser::anonymous();
    let names = tool_names(&list);
    assert_eq!(names, vec!["echo", "db_read_game"]);
    for name in names {
        assert!(call_gate(&anon, &name, false).is_none());
    }
}

#[test]
fn a_fractional_id_keeps_its_value() {
    match json(r#"{"jsonrpc":"2.0","id":1.5,"method":"ping"}"#) {
        Json::Object(m) => {
            let id = m.iter().find(|(k, _)| k == "id").map(|(_, v)| v).expect("id");
            assert!(matches!(id, Json::Fractional(t) if t == "1.5"));
        },
        _ => panic!("expected an object"),
    }
    match check_request(&json(r#"{"jsonrpc":"2.0","id":2.25,"method":"ping"}"#)) {
        RequestCheck::Valid { echo_id, .. } => assert!(echo_id),
        _ => panic!("expected a valid request"),
    }
}

#[test]
fn tools_call_checks_params_gate_then_registry() {
    let who = |public: bool, read_only: bool| CurrentUser {
        id: "u".to_string(),
        is_admin: false,
        public,
        read_only,
        global_only: false,
    };
    let mutating = vec!["study_create".to_string()];
    let registered = vec!["echo".to_string(), "study_create".to_string(), "search_headers".to_string()];
    let call = |name: &str| Some(json(&format!(r#"{{"name":"{name}","arguments":{{}}}}"#)));

    let e = tools_call_step(&who(false, false), &None, &mutating, &registered).err().unwrap();
    assert_eq!((e.code, e.message.as_str()), (-32602, "Missing params"));
    let e = tools_call_step(&who(true, false), &call("study_create"), &mutating, &registered).err().unwrap();
    assert_eq!(e.code, -32001);
    assert_eq!(e.message, "Authentication required: `study_create` is not available to anonymous callers.");
    let e = tools_call_step(&who(false, true), &call("study_create"), &mutating, &registered).err().unwrap();
    assert_eq!(e.message, "This token is read-only and cannot call `study_create`.");
    let e = tools_call_step(&who(false, false), &call("nope"), &mutating, &registered).err().unwrap();
    assert_eq!((e.code, e.message.as_str()), (-32602, "Unknown tool: nope"));
    assert_eq!(tools_call_step(&who(false, true), &call("echo"), &mutating, &registered).ok(), Some("echo".to_string()));
}
