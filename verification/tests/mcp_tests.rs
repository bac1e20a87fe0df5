use std::path::PathBuf;
use studio_mcp_bridge::json::Json;
use studio_mcp_bridge::mcp_stdio::{
    age_secs, disabled_tool_reason, finish_tools_call, forward_tool_call, handle_initialize,
    handle_line, handle_notification, handle_request, handle_status_tool, handle_status_tool_at,
    handle_tools_call, handle_tools_list, parse_message, plan_line, plan_request,
    plan_tools_call, tool_reply_response, ForwardedCall, LinePlan, LineStep, Notification,
    ToolCallOutcome, ToolCallPlan, ToolCallStep, INVALID_PARAMS, METHOD_NOT_FOUND, PARSE_ERROR,
    PROTOCOL_VERSION, SERVER_NAME, SERVER_VERSION, TOOL_CALL_TIMEOUT_SECS,
};
use studio_mcp_bridge::state::SharedState;
use studio_mcp_bridge::types::{
    BridgeToolRequest, BridgeToolResponse, JsonRpcError, JsonRpcMessage, JsonRpcResponse,
    McpContent, McpToolDef, McpToolResult,
};

fn fresh() -> SharedState {
    SharedState::new(PathBuf::from("captures"))
}

fn num(n: i64) -> Json {
    Json::Number(serde_json::Number::from(n))
}

fn obj(members: Vec<(&str, Json)>) -> Json {
    Json::Object(members.into_iter().map(|m| (m.0.to_string(), m.1)).collect())
}

fn s(text: &str) -> Json {
    Json::Str(text.to_string())
}

fn tool_text(id: Json, text: &str, is_error: bool) -> JsonRpcResponse {
    JsonRpcResponse {
        jsonrpc: "2.0".to_string(),
        id,
        result: Some(obj(vec![
            ("content", Json::Array(vec![obj(vec![("type", s("text")), ("text", s(text))])])),
            ("isError", Json::Bool(is_error)),
        ])),
        error: None,
    }
}

fn call_params(name: &str) -> Json {
    obj(vec![("name", s(name)), ("arguments", obj(vec![("code", s("return 1"))]))])
}

fn slot() -> tokio::sync::oneshot::Sender<BridgeToolResponse> {
    tokio::sync::oneshot::channel().0
}

fn tools() -> Vec<McpToolDef> {
    vec![
        McpToolDef {
            name: "studio-status".to_string(),
            description: Some("Status".to_string()),
            input_schema: obj(vec![("type", s("object"))]),
        },
        McpToolDef {
            name: "studio-run_script".to_string(),
            description: None,
            input_schema: obj(vec![("type", s("object")), ("required", Json::Array(vec![s("code")]))]),
        },
    ]
}

#[test]
fn constants() {
    assert_eq!(PROTOCOL_VERSION, "2025-11-25");
    assert_eq!(TOOL_CALL_TIMEOUT_SECS, 30);
    assert_eq!(PARSE_ERROR, -32700);
    assert_eq!(METHOD_NOT_FOUND, -32601);
    assert_eq!(INVALID_PARAMS, -32602);
}

#[test]
fn response_helpers() {
    let ok = JsonRpcResponse::success(num(1), Json::Bool(true));
    assert_eq!(
        ok,
        JsonRpcResponse { jsonrpc: "2.0".to_string(), id: num(1), result: Some(Json::Bool(true)), error: None }
    );
    let err = JsonRpcResponse::error(s("x"), -32601, "nope");
    assert_eq!(
        err,
        JsonRpcResponse {
            jsonrpc: "2.0".to_string(),
            id: s("x"),
            result: None,
            error: Some(JsonRpcError { code: -32601, message: "nope".to_string(), data: None }),
        }
    );
}

#[test]
fn response_lines() {
    assert_eq!(
        JsonRpcResponse::success(num(1), obj(vec![])).to_line(),
        r#"{"jsonrpc":"2.0","id":1,"result":{}}"#
    );
    assert_eq!(
        JsonRpcResponse::error(Json::Null, -32700, "Parse error: x").to_line(),
        r#"{"jsonrpc":"2.0","id":null,"error":{"code":-32700,"message":"Parse error: x"}}"#
    );
    let with_data = JsonRpcError { code: 1, message: "m".to_string(), data: Some(Json::Bool(true)) };
    assert_eq!(with_data.to_json().to_text(), r#"{"code":1,"message":"m","data":true}"#);
}

#[test]
fn tool_result_helpers() {
    let ok = McpToolResult::text("hello");
    assert_eq!(
        ok,
        McpToolResult { content: vec![McpContent::Text { text: "hello".to_string() }], is_error: false }
    );
    let bad = McpToolResult::error_text("oops");
    assert_eq!(
        bad,
        McpToolResult { content: vec![McpContent::Text { text: "oops".to_string() }], is_error: true }
    );
    assert_eq!(
        ok.to_value().to_text(),
        r#"{"content":[{"type":"text","text":"hello"}],"isError":false}"#
    );
    assert_eq!(
        bad.to_value().to_text(),
        r#"{"content":[{"type":"text","text":"oops"}],"isError":true}"#
    );
    let image = McpToolResult {
        content: vec![McpContent::Image { data: "AAAA".to_string(), mime_type: "image/png".to_string() }],
        is_error: false,
    };
    assert_eq!(
        image.to_value().to_text(),
        r#"{"content":[{"type":"image","data":"AAAA","mimeType":"image/png"}],"isError":false}"#
    );
    let empty = McpToolResult { content: vec![], is_error: false };
    assert_eq!(empty.to_value().to_text(), r#"{"content":[],"isError":false}"#);
}

#[test]
fn tool_def_json() {
    let t = tools();
    assert_eq!(
        t[0].to_json().to_text(),
        r#"{"name":"studio-status","description":"Status","inputSchema":{"type":"object"}}"#
    );
    assert_eq!(
        t[1].to_json().to_text(),
        r#"{"name":"studio-run_script","inputSchema":{"type":"object","required":["code"]}}"#
    );
}

#[test]
fn notifications_are_classified() {
    assert_eq!(handle_notification("notifications/initialized"), Notification::Initialized);
    assert_eq!(handle_notification("notifications/cancelled"), Notification::Cancelled);
    assert_eq!(handle_notification("notifications/other"), Notification::Unknown);
    assert_eq!(handle_notification(""), Notification::Unknown);
}

#[test]
fn initialize_reports_protocol_and_server() {
    let r = handle_initialize(num(1));
    let expected = format!(
        r#"{{"jsonrpc":"2.0","id":1,"result":{{"protocolVersion":"2025-11-25","capabilities":{{"tools":{{}}}},"serverInfo":{{"name":"{}","version":"{}"}}}}}}"#,
        SERVER_NAME, SERVER_VERSION
    );
    assert_eq!(r.to_line(), expected);
}

#[test]
fn tools_list_wraps_the_tools() {
    let r = handle_tools_list(s("abc"), &tools());
    assert_eq!(
        r.to_line(),
        r#"{"jsonrpc":"2.0","id":"abc","result":{"tools":[{"name":"studio-status","description":"Status","inputSchema":{"type":"object"}},{"name":"studio-run_script","inputSchema":{"type":"object","required":["code"]}}]}}"#
    );
    let none = handle_tools_list(num(2), &vec![]);
    assert_eq!(none.to_line(), r#"{"jsonrpc":"2.0","id":2,"result":{"tools":[]}}"#);
}

#[test]
fn tool_reply_wraps_text() {
    assert_eq!(tool_reply_response(num(3), "hi", false), tool_text(num(3), "hi", false));
    assert_eq!(tool_reply_response(num(3), "no", true), tool_text(num(3), "no", true));
}

#[test]
fn age_in_whole_seconds() {
    assert_eq!(age_secs(61_999, 0), 61);
    assert_eq!(age_secs(1_000, 1_000), 0);
    assert_eq!(age_secs(999, 0), 0);
    assert_eq!(age_secs(0, 1_999), -1);
    assert_eq!(age_secs(0, 999), 0);
    assert_eq!(age_secs(i64::MAX, i64::MIN), 18_446_744_073_709_551);
    assert_eq!(age_secs(i64::MIN, i64::MAX), -18_446_744_073_709_551);
}

#[test]
fn disabled_tools() {
    assert_eq!(
        disabled_tool_reason("studio-capture_screenshot"),
        Some("Unsupported: CaptureService returns rbxtemp:// content IDs that cannot be extracted as files from a plugin.")
    );
    assert_eq!(
        disabled_tool_reason("studio-capture_video_start"),
        Some("Unsupported: CaptureService does not expose a video recording API.")
    );
    assert_eq!(
        disabled_tool_reason("studio-capture_video_stop"),
        Some("Unsupported: CaptureService does not expose a video recording API.")
    );
    assert_eq!(disabled_tool_reason("studio-run_script"), None);
}

#[test]
fn status_tool_works_without_clients() {
    let mut state = fresh();
    let r = handle_status_tool_at(&mut state, num(1), 0);
    let expected_text = "{\n  \"connected\": false,\n  \"clientId\": null,\n  \"clients\": [],\n  \"playtest\": {\n    \"active\": false,\n    \"sessionId\": null,\n    \"mode\": null\n  }\n}";
    assert_eq!(r, tool_text(num(1), expected_text, false));
}

#[test]
fn status_tool_lists_clients_after_pruning() {
    let mut state = fresh();
    state.register_client_at("gone".to_string(), "0.9".to_string(), 0);
    state.register_client_at("C1".to_string(), "1.0".to_string(), 95_000);
    state.register_client_at("C2".to_string(), "1.0-playtest".to_string(), 98_500);
    state.update_playtest(true, Some("s1".to_string()), Some("play".to_string()));
    let r = handle_status_tool_at(&mut state, s("id"), 100_000);
    let report = obj(vec![
        ("connected", Json::Bool(true)),
        ("clientId", s("C1")),
        (
            "clients",
            Json::Array(vec![
                obj(vec![
                    ("clientId", s("C1")),
                    ("version", s("1.0")),
                    ("isBridge", Json::Bool(false)),
                    ("lastPollSecsAgo", num(5)),
                ]),
                obj(vec![
                    ("clientId", s("C2")),
                    ("version", s("1.0-playtest")),
                    ("isBridge", Json::Bool(true)),
                    ("lastPollSecsAgo", num(1)),
                ]),
            ]),
        ),
        ("playtest", obj(vec![("active", Json::Bool(true)), ("sessionId", s("s1")), ("mode", s("play"))])),
    ]);
    assert_eq!(r, tool_text(s("id"), &report.to_pretty_text(), false));
    assert_eq!(state.connected_client_count_at(100_000), 2);
}

#[test]
fn status_tool_with_clock() {
    let mut state = fresh();
    state.register_client("C1".to_string(), "1.0".to_string());
    let r = handle_status_tool(&mut state, num(9));
    assert_eq!(r.id, num(9));
    let text = r.result.unwrap().get("content").unwrap().clone();
    match text {
        Json::Array(items) => {
            let t = items[0].str_member("text").unwrap().to_string();
            let doc = Json::parse(&t).unwrap();
            assert_eq!(doc.bool_member("connected"), Some(true));
            assert_eq!(doc.str_member("clientId"), Some("C1"));
        }
        other => panic!("unexpected {:?}", other),
    }
}

#[test]
fn tools_call_without_name_is_invalid_params() {
    let mut state = fresh();
    for params in [obj(vec![]), obj(vec![("name", num(3))]), Json::Null, Json::Array(vec![])] {
        let plan = plan_tools_call(&mut state, num(1), params, 0, "R".to_string(), slot());
        assert_eq!(
            plan,
            ToolCallPlan::Reply(JsonRpcResponse::error(num(1), -32602, "Missing 'name' in tools/call params"))
        );
    }
    assert_eq!(state.pending_call_count(), 0);
}

#[test]
fn tools_call_status_shortcut_needs_no_client() {
    let mut state = fresh();
    let plan = plan_tools_call(&mut state, num(1), obj(vec![("name", s("studio-status"))]), 0, "R".to_string(), slot());
    match plan {
        ToolCallPlan::Reply(r) => {
            assert_eq!(r.id, num(1));
            assert_eq!(r.result.unwrap().bool_member("isError"), Some(false));
        }
        other => panic!("unexpected {:?}", other),
    }
    assert_eq!(state.pending_call_count(), 0);
}

#[test]
fn tools_call_unsupported_tool_fails_at_once() {
    let mut state = fresh();
    state.register_client_at("C".to_string(), "1.0".to_string(), 0);
    let plan = plan_tools_call(&mut state, num(4), call_params("studio-capture_screenshot"), 0, "R".to_string(), slot());
    assert_eq!(
        plan,
        ToolCallPlan::Reply(tool_text(
            num(4),
            "Unsupported: CaptureService returns rbxtemp:// content IDs that cannot be extracted as files from a plugin.",
            true
        ))
    );
    let plan = plan_tools_call(&mut state, num(5), call_params("studio-capture_video_stop"), 0, "R".to_string(), slot());
    assert_eq!(
        plan,
        ToolCallPlan::Reply(tool_text(num(5), "Unsupported: CaptureService does not expose a video recording API.", true))
    );
    assert_eq!(state.pending_call_count(), 0);
    assert!(state.drain_outbound_at("C", 0).is_empty());
}

#[test]
fn tools_call_without_client_fails_at_once() {
    let mut state = fresh();
    let plan = plan_tools_call(&mut state, num(7), call_params("studio-run_script"), 0, "R".to_string(), slot());
    assert_eq!(
        plan,
        ToolCallPlan::Reply(tool_text(
            num(7),
            "No Roblox Studio plugin connected. Install the plugin and click Connect.",
            true
        ))
    );
    assert_eq!(state.pending_call_count(), 0);
}

#[test]
fn stale_client_pruning_then_call() {
    let mut state = fresh();
    state.register_client_at("C".to_string(), "1.0".to_string(), 0);
    assert!(state.has_connected_client_at(60_000));
    assert!(!state.has_connected_client_at(60_001));
    let plan = plan_tools_call(&mut state, num(7), call_params("studio-run_script"), 60_002, "R".to_string(), slot());
    assert_eq!(
        plan,
        ToolCallPlan::Reply(tool_text(
            num(7),
            "No Roblox Studio plugin connected. Install the plugin and click Connect.",
            true
        ))
    );
}

#[test]
fn tools_call_prunes_before_it_decides() {
    let mut state = fresh();
    state.register_client_at("C".to_string(), "1.0".to_string(), 0);
    let plan = plan_tools_call(&mut state, num(7), call_params("studio-run_script"), 70_000, "R".to_string(), slot());
    assert!(matches!(plan, ToolCallPlan::Reply(_)));
    assert_eq!(state.client_info().len(), 0);
    assert_eq!(state.pending_call_count(), 0);
}

#[test]
fn call_pull_push_round_trip() {
    let mut state = fresh();
    state.register_client_at("C".to_string(), "1.0".to_string(), 0);
    assert!(state.drain_outbound_at("C", 1).is_empty());
    let line = r#"{"jsonrpc":"2.0","id":7,"method":"tools/call","params":{"name":"studio-run_script","arguments":{"code":"return 1"}}}"#;
    let (tx, mut rx) = tokio::sync::oneshot::channel();
    let plan = plan_line(&mut state, line, &tools(), 2, "R".to_string(), tx);
    let call = match plan {
        LinePlan::Forwarded(call) => call,
        other => panic!("unexpected {:?}", other),
    };
    assert_eq!(
        call,
        ForwardedCall { id: num(7), tool_name: "studio-run_script".to_string(), request_id: "R".to_string() }
    );
    assert_eq!(state.pending_call_count(), 1);
    let pulled = state.drain_outbound_at("C", 3);
    assert_eq!(
        pulled,
        vec![BridgeToolRequest {
            request_id: "R".to_string(),
            tool_name: "studio-run_script".to_string(),
            arguments: obj(vec![("code", s("return 1"))]),
        }]
    );
    let answer = BridgeToolResponse {
        request_id: "R".to_string(),
        success: true,
        result: Some(s("1")),
        error: None,
    };
    assert!(state.resolve_pending("R", answer));
    let delivered = rx.try_recv().unwrap();
    let response = finish_tools_call(&mut state, call, ToolCallOutcome::Answered(delivered));
    assert_eq!(
        response.to_line(),
        r#"{"jsonrpc":"2.0","id":7,"result":{"content":[{"type":"text","text":"1"}],"isError":false}}"#
    );
    assert_eq!(state.pending_call_count(), 0);
}

#[test]
fn tools_call_defaults_arguments_to_empty_object() {
    let mut state = fresh();
    state.register_client_at("C".to_string(), "1.0".to_string(), 0);
    let plan = plan_tools_call(&mut state, num(1), obj(vec![("name", s("studio-playtest_play"))]), 0, "R".to_string(), slot());
    assert!(matches!(plan, ToolCallPlan::Forwarded(_)));
    assert_eq!(state.drain_outbound_at("C", 0)[0].arguments, obj(vec![]));
}

#[test]
fn timeout_outcome() {
    let mut state = fresh();
    state.register_client_at("C".to_string(), "1.0".to_string(), 0);
    let (tx, _rx) = tokio::sync::oneshot::channel();
    let plan = plan_tools_call(&mut state, num(7), call_params("studio-run_script"), 0, "R".to_string(), tx);
    let call = match plan {
        ToolCallPlan::Forwarded(call) => call,
        other => panic!("unexpected {:?}", other),
    };
    assert_eq!(state.pending_call_count(), 1);
    let response = finish_tools_call(&mut state, call, ToolCallOutcome::TimedOut);
    assert_eq!(
        response,
        tool_text(
            num(7),
            "Tool call 'studio-run_script' timed out after 30s. Is the Studio plugin running?",
            true
        )
    );
    assert!(response.to_line().contains(r#""isError":true"#));
    assert_eq!(state.pending_call_count(), 0);
    let late = BridgeToolResponse { request_id: "R".to_string(), success: true, result: None, error: None };
    assert!(!state.resolve_pending("R", late));
}

#[test]
fn outcomes_of_a_forwarded_call() {
    let call = || ForwardedCall { id: num(1), tool_name: "t".to_string(), request_id: "R".to_string() };
    let answered = |success: bool, result: Option<Json>, error: Option<&str>| {
        ToolCallOutcome::Answered(BridgeToolResponse {
            request_id: "R".to_string(),
            success,
            result,
            error: error.map(|e| e.to_string()),
        })
    };
    let mut state = fresh();
    assert_eq!(
        finish_tools_call(&mut state, call(), answered(true, Some(s("raw")), None)),
        tool_text(num(1), "raw", false)
    );
    assert_eq!(
        finish_tools_call(&mut state, call(), answered(true, Some(obj(vec![("a", num(1))])), None)),
        tool_text(num(1), "{\n  \"a\": 1\n}", false)
    );
    assert_eq!(
        finish_tools_call(&mut state, call(), answered(true, Some(Json::Null), None)),
        tool_text(num(1), "null", false)
    );
    assert_eq!(
        finish_tools_call(&mut state, call(), answered(true, None, Some("ignored"))),
        tool_text(num(1), "ok", false)
    );
    assert_eq!(
        finish_tools_call(&mut state, call(), answered(false, Some(s("x")), Some("boom"))),
        tool_text(num(1), "boom", true)
    );
    assert_eq!(
        finish_tools_call(&mut state, call(), answered(false, None, None)),
        tool_text(num(1), "Unknown plugin error", true)
    );
    assert_eq!(
        finish_tools_call(&mut state, call(), ToolCallOutcome::Disconnected),
        tool_text(num(1), "Plugin disconnected while processing tool call", true)
    );
}

#[test]
fn forward_without_client_leaves_no_slot() {
    let mut state = fresh();
    let plan = forward_tool_call(&mut state, num(1), "studio-run_script".to_string(), obj(vec![]), "R".to_string(), slot());
    assert_eq!(
        plan,
        ToolCallPlan::Reply(tool_text(num(1), "Failed to enqueue tool request to plugin", true))
    );
    assert_eq!(state.pending_call_count(), 0);
}

#[test]
fn forward_routes_by_tool() {
    let mut state = fresh();
    state.register_client_at("C1".to_string(), "1.0".to_string(), 0);
    state.register_client_at("C2".to_string(), "1.0-playtest".to_string(), 0);
    let plan = plan_tools_call(&mut state, num(1), call_params("studio-virtualuser_key"), 0, "R1".to_string(), slot());
    assert!(matches!(plan, ToolCallPlan::Forwarded(_)));
    let plan = plan_tools_call(&mut state, num(2), call_params("studio-run_script"), 0, "R2".to_string(), slot());
    assert!(matches!(plan, ToolCallPlan::Forwarded(_)));
    let on_bridge: Vec<String> = state.drain_outbound_at("C2", 0).into_iter().map(|r| r.tool_name).collect();
    let on_main: Vec<String> = state.drain_outbound_at("C1", 0).into_iter().map(|r| r.tool_name).collect();
    assert_eq!(on_bridge, vec!["studio-virtualuser_key"]);
    assert_eq!(on_main, vec!["studio-run_script"]);
    assert_eq!(state.pending_call_count(), 2);
}

#[test]
fn handle_tools_call_with_fresh_id_and_slot() {
    let mut state = fresh();
    state.register_client("C".to_string(), "1.0".to_string());
    let step = handle_tools_call(&mut state, num(1), call_params("studio-run_script"));
    let (call, mut rx) = match step {
        ToolCallStep::Await(call, rx) => (call, rx),
        ToolCallStep::Reply(r) => panic!("unexpected {:?}", r),
    };
    assert_eq!(call.id, num(1));
    assert_eq!(call.request_id.len(), 36);
    let pulled = state.drain_outbound("C");
    assert_eq!(pulled.len(), 1);
    assert_eq!(pulled[0].request_id, call.request_id);
    let answer = BridgeToolResponse { request_id: call.request_id.clone(), success: true, result: Some(s("1")), error: None };
    assert!(state.resolve_pending(&call.request_id, answer));
    assert!(rx.try_recv().is_ok());
    let step2 = handle_tools_call(&mut state, num(2), call_params("studio-run_script"));
    match step2 {
        ToolCallStep::Await(call2, _) => assert_ne!(call2.request_id, call.request_id),
        ToolCallStep::Reply(r) => panic!("unexpected {:?}", r),
    }
}

#[test]
fn requests_are_dispatched_by_method() {
    let mut state = fresh();
    let plan = plan_request(&mut state, num(1), "ping", Json::Null, &tools(), 0, "R".to_string(), slot());
    assert_eq!(plan, ToolCallPlan::Reply(JsonRpcResponse::success(num(1), obj(vec![]))));
    let plan = plan_request(&mut state, num(2), "initialize", Json::Null, &tools(), 0, "R".to_string(), slot());
    assert_eq!(plan, ToolCallPlan::Reply(handle_initialize(num(2))));
    let plan = plan_request(&mut state, num(3), "tools/list", Json::Null, &tools(), 0, "R".to_string(), slot());
    assert_eq!(plan, ToolCallPlan::Reply(handle_tools_list(num(3), &tools())));
    let plan = plan_request(&mut state, num(4), "resources/list", Json::Null, &tools(), 0, "R".to_string(), slot());
    assert_eq!(
        plan,
        ToolCallPlan::Reply(JsonRpcResponse::error(num(4), -32601, "Method not found: resources/list"))
    );
    let plan = plan_request(&mut state, num(5), "tools/call", call_params("studio-run_script"), &tools(), 0, "R".to_string(), slot());
    assert_eq!(
        plan,
        ToolCallPlan::Reply(tool_text(
            num(5),
            "No Roblox Studio plugin connected. Install the plugin and click Connect.",
            true
        ))
    );
}

#[test]
fn handle_request_with_clock() {
    let mut state = fresh();
    match handle_request(&mut state, num(1), "ping", Json::Null, &tools()) {
        ToolCallStep::Reply(r) => assert_eq!(r, JsonRpcResponse::success(num(1), obj(vec![]))),
        ToolCallStep::Await(..) => panic!("unexpected wait"),
    }
}

#[test]
fn messages_are_read_from_lines() {
    let m = parse_message(r#"{"jsonrpc":"2.0","id":7,"method":"ping","params":{"a":1},"extra":true}"#).unwrap();
    assert_eq!(
        m,
        JsonRpcMessage {
            jsonrpc: "2.0".to_string(),
            id: Some(num(7)),
            method: "ping".to_string(),
            params: obj(vec![("a", num(1))]),
        }
    );
    let n = parse_message(r#"{"jsonrpc":"2.0","method":"notifications/initialized"}"#).unwrap();
    assert_eq!(n.id, None);
    assert_eq!(n.params, Json::Null);
    let null_id = parse_message(r#"{"jsonrpc":"2.0","id":null,"method":"x"}"#).unwrap();
    assert_eq!(null_id.id, None);
    assert_eq!(parse_message("[1]").unwrap_err(), "invalid type: expected a JSON-RPC message object");
    assert_eq!(parse_message(r#"{"method":"x"}"#).unwrap_err(), "missing field `jsonrpc`");
    assert_eq!(
        parse_message(r#"{"jsonrpc":2,"method":"x"}"#).unwrap_err(),
        "invalid type: expected a string for `jsonrpc`"
    );
    assert_eq!(parse_message(r#"{"jsonrpc":"2.0"}"#).unwrap_err(), "missing field `method`");
    assert_eq!(
        parse_message(r#"{"jsonrpc":"2.0","method":[]}"#).unwrap_err(),
        "invalid type: expected a string for `method`"
    );
    assert!(parse_message("{").is_err());
}

#[test]
fn lines_are_decided() {
    let mut state = fresh();
    assert_eq!(plan_line(&mut state, "", &tools(), 0, "R".to_string(), slot()), LinePlan::Skip);
    assert_eq!(plan_line(&mut state, "  \t ", &tools(), 0, "R".to_string(), slot()), LinePlan::Skip);
    assert_eq!(
        plan_line(&mut state, r#"{"jsonrpc":"2.0","method":"notifications/cancelled"}"#, &tools(), 0, "R".to_string(), slot()),
        LinePlan::Notified(Notification::Cancelled)
    );
    assert_eq!(
        plan_line(&mut state, r#"{"jsonrpc":"2.0","method":"tools/call"}"#, &tools(), 0, "R".to_string(), slot()),
        LinePlan::Notified(Notification::Unknown)
    );
    assert_eq!(
        plan_line(&mut state, r#"  {"jsonrpc":"2.0","id":"a","method":"ping"}  "#, &tools(), 0, "R".to_string(), slot()),
        LinePlan::Reply(JsonRpcResponse::success(s("a"), obj(vec![])))
    );
    assert_eq!(
        plan_line(&mut state, r#"{"jsonrpc":"2.0","id":1,"method":"nope"}"#, &tools(), 0, "R".to_string(), slot()),
        LinePlan::Reply(JsonRpcResponse::error(num(1), -32601, "Method not found: nope"))
    );
}

#[test]
fn bad_line_gets_a_parse_error() {
    let mut state = fresh();
    let plan = plan_line(&mut state, "{not json", &tools(), 0, "R".to_string(), slot());
    let detail = Json::parse("{not json").unwrap_err();
    assert_eq!(
        plan,
        LinePlan::Reply(JsonRpcResponse::error(Json::Null, -32700, &format!("Parse error: {}", detail)))
    );
    let plan = plan_line(&mut state, "42", &tools(), 0, "R".to_string(), slot());
    assert_eq!(
        plan,
        LinePlan::Reply(JsonRpcResponse::error(
            Json::Null,
            -32700,
            "Parse error: invalid type: expected a JSON-RPC message object"
        ))
    );
}

#[test]
fn handle_line_with_clock() {
    let mut state = fresh();
    assert!(matches!(handle_line(&mut state, "   ", &tools()), LineStep::Skip));
    assert!(matches!(
        handle_line(&mut state, r#"{"jsonrpc":"2.0","method":"notifications/initialized"}"#, &tools()),
        LineStep::Notified(Notification::Initialized)
    ));
    match handle_line(&mut state, r#"{"jsonrpc":"2.0","id":3,"method":"ping"}"#, &tools()) {
        LineStep::Reply(r) => assert_eq!(r.to_line(), r#"{"jsonrpc":"2.0","id":3,"result":{}}"#),
        _ => panic!("unexpected step"),
    }
    state.register_client("C".to_string(), "1.0".to_string());
    let line = r#"{"jsonrpc":"2.0","id":7,"method":"tools/call","params":{"name":"studio-run_script"}}"#;
    assert!(matches!(handle_line(&mut state, line, &tools()), LineStep::Await(..)));
    assert_eq!(state.pending_call_count(), 1);
}
