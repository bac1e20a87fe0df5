use std::path::PathBuf;
use studio_mcp_bridge::bridge_http::{
    check_auth, finish_pull, finish_pull_at, handle_event, handle_event_at, handle_health,
    handle_pull, handle_pull_at, handle_push, handle_push_at, handle_register,
    handle_register_at, handle_status, handle_status_at, EventKind, PullStep, PushReport,
    PULL_TIMEOUT_SECS,
};
use studio_mcp_bridge::config::{parse_port, Config, DEFAULT_PORT};
use studio_mcp_bridge::json::Json;
use studio_mcp_bridge::state::SharedState;
use studio_mcp_bridge::types::{
    BridgeEvent, BridgePushPayload, BridgeRegisterRequest, BridgeRegisterResponse,
    BridgeStatusResponse, BridgeToolRequest, BridgeToolResponse,
};

fn fresh() -> SharedState {
    SharedState::new(PathBuf::from("captures"))
}

fn config(token: Option<&str>) -> Config {
    Config { port: 3333, token: token.map(|t| t.to_string()), capture_dir: PathBuf::from("captures") }
}

fn obj(members: Vec<(&str, Json)>) -> Json {
    Json::Object(members.into_iter().map(|m| (m.0.to_string(), m.1)).collect())
}

fn s(text: &str) -> Json {
    Json::Str(text.to_string())
}

fn unauthorized() -> (u16, String) {
    (401, "Invalid or missing Authorization header".to_string())
}

fn event(kind: &str, data: Json) -> BridgeEvent {
    BridgeEvent { event_type: kind.to_string(), data }
}

fn request(id: &str, tool: &str) -> BridgeToolRequest {
    BridgeToolRequest { request_id: id.to_string(), tool_name: tool.to_string(), arguments: obj(vec![]) }
}

fn response(id: &str) -> BridgeToolResponse {
    BridgeToolResponse { request_id: id.to_string(), success: true, result: None, error: None }
}

#[test]
fn pull_timeout_is_twenty_five_seconds() {
    assert_eq!(PULL_TIMEOUT_SECS, 25);
}

#[test]
fn auth_requires_the_exact_bearer_header() {
    let c = config(Some("secret"));
    assert_eq!(check_auth(Some("Bearer secret"), &c), Ok(()));
    assert_eq!(check_auth(Some("Bearer secret "), &c), Err(unauthorized()));
    assert_eq!(check_auth(Some("bearer secret"), &c), Err(unauthorized()));
    assert_eq!(check_auth(Some("secret"), &c), Err(unauthorized()));
    assert_eq!(check_auth(Some(""), &c), Err(unauthorized()));
    assert_eq!(check_auth(None, &c), Err(unauthorized()));
}

#[test]
fn auth_is_bypassed_without_a_token() {
    let c = config(None);
    assert_eq!(check_auth(None, &c), Ok(()));
    assert_eq!(check_auth(Some("anything"), &c), Ok(()));
}

#[test]
fn auth_with_an_empty_token() {
    let c = config(Some(""));
    assert_eq!(check_auth(Some("Bearer "), &c), Ok(()));
    assert_eq!(check_auth(None, &c), Err(unauthorized()));
}

#[test]
fn config_resolve_fills_defaults() {
    let c = Config::resolve(None, None, PathBuf::from("d"));
    assert_eq!(c.port, DEFAULT_PORT);
    assert_eq!(c.port, 3333);
    assert_eq!(c.token.as_ref().unwrap().len(), 36);
    assert_eq!(c.capture_dir, PathBuf::from("d"));
    let c2 = Config::resolve(Some("4000"), Some("t".to_string()), PathBuf::from("e"));
    assert_eq!(c2.port, 4000);
    assert_eq!(c2.token, Some("t".to_string()));
    let c3 = Config::resolve(Some("not a port"), None, PathBuf::from("d"));
    assert_eq!(c3.port, 3333);
    assert_ne!(c3.token, c.token);
    let copy = c2.clone();
    assert_eq!(copy.port, 4000);
    assert_eq!(copy.token, Some("t".to_string()));
    assert_eq!(copy.capture_dir, PathBuf::from("e"));
}

#[test]
fn ports_are_read_as_the_standard_library_reads_them() {
    assert_eq!(parse_port("3334"), Some(3334));
    assert_eq!(parse_port("0"), Some(0));
    assert_eq!(parse_port("65535"), Some(65535));
    assert_eq!(parse_port("65536"), None);
    assert_eq!(parse_port("+80"), Some(80));
    assert_eq!(parse_port("00080"), Some(80));
    for text in [
        "", "+", "-1", "++1", "1+", " 80", "80 ", "8 0", "0x50", "１２", "99999999999999999999",
        "4294967296", "65535", "65536", "000000000000000000000065535", "+0", "é", "12é", "+é1",
        "１", "1_000", "1e3", "٣",
    ] {
        assert_eq!(parse_port(text), text.parse::<u16>().ok(), "{:?}", text);
    }
}

#[test]
fn register_and_status() {
    let mut state = fresh();
    let c = config(Some("t"));
    let body = BridgeRegisterRequest { plugin_version: "1.0".to_string() };
    let answer = handle_register_at(&mut state, Some("Bearer t"), &c, body, "C".to_string(), 0);
    assert_eq!(
        answer,
        Ok(BridgeRegisterResponse { client_id: "C".to_string(), server_version: "0.1.0".to_string() })
    );
    assert_eq!(
        handle_status_at(&mut state, Some("Bearer t"), &c, 1),
        Ok(BridgeStatusResponse { connected_clients: 1, pending_calls: 0, log_buffer_size: 0, playtest_active: false })
    );
    assert_eq!(state.client_info()[0].1, "1.0");
}

#[test]
fn register_without_version_is_unknown() {
    let mut state = fresh();
    let c = config(None);
    let body = BridgeRegisterRequest { plugin_version: String::new() };
    assert!(handle_register_at(&mut state, None, &c, body, "C".to_string(), 0).is_ok());
    assert_eq!(state.client_info(), vec![("C".to_string(), "unknown".to_string(), 0, false)]);
}

#[test]
fn register_rejects_bad_token_and_changes_nothing() {
    let mut state = fresh();
    let c = config(Some("t"));
    let body = BridgeRegisterRequest { plugin_version: "1.0".to_string() };
    assert_eq!(handle_register_at(&mut state, None, &c, body, "C".to_string(), 0), Err(unauthorized()));
    assert_eq!(state.client_info().len(), 0);
}

#[test]
fn register_mints_distinct_ids() {
    let mut state = fresh();
    let c = config(None);
    let a = handle_register(&mut state, None, &c, BridgeRegisterRequest { plugin_version: "1.0".to_string() }).unwrap();
    let b = handle_register(&mut state, None, &c, BridgeRegisterRequest { plugin_version: "1.0".to_string() }).unwrap();
    assert_eq!(a.client_id.len(), 36);
    assert_ne!(a.client_id, b.client_id);
    assert_eq!(a.server_version, "0.1.0");
    assert_eq!(handle_status(&mut state, None, &c).unwrap().connected_clients, 2);
}

#[test]
fn pull_returns_queued_requests_at_once() {
    let mut state = fresh();
    let c = config(None);
    state.register_client_at("C".to_string(), "1.0".to_string(), 0);
    assert!(state.enqueue_tool_request(request("r1", "studio-run_script")));
    assert!(state.enqueue_tool_request(request("r2", "studio-run_script")));
    match handle_pull_at(&mut state, None, &c, "C", 5) {
        Ok(PullStep::Ready(requests)) => {
            assert_eq!(requests, vec![request("r1", "studio-run_script"), request("r2", "studio-run_script")])
        }
        _ => panic!("expected requests"),
    }
    assert_eq!(state.client_info()[0].2, 5);
}

#[test]
fn pull_with_empty_queue_waits_then_times_out_empty() {
    let mut state = fresh();
    let c = config(None);
    state.register_client_at("C".to_string(), "1.0".to_string(), 0);
    match handle_pull_at(&mut state, None, &c, "C", 5) {
        Ok(PullStep::Wait(_)) => {}
        _ => panic!("expected a wait"),
    }
    assert_eq!(state.client_info()[0].2, 5);
    assert!(finish_pull_at(&mut state, "C", false, 25_005).is_empty());
    assert_eq!(state.client_info()[0].2, 5);
}

#[test]
fn pull_wakes_on_enqueue_and_drains() {
    let mut state = fresh();
    let c = config(None);
    state.register_client_at("C".to_string(), "1.0".to_string(), 0);
    let wake = match handle_pull_at(&mut state, None, &c, "C", 5) {
        Ok(PullStep::Wait(wake)) => wake,
        _ => panic!("expected a wait"),
    };
    assert!(state.enqueue_tool_request(request("r1", "studio-run_script")));
    let rt = tokio::runtime::Builder::new_current_thread().enable_time().build().unwrap();
    let woke = rt.block_on(async {
        tokio::time::timeout(std::time::Duration::from_millis(200), wake.notified()).await.is_ok()
    });
    assert!(woke);
    assert_eq!(finish_pull_at(&mut state, "C", true, 9), vec![request("r1", "studio-run_script")]);
    assert_eq!(state.client_info()[0].2, 9);
}

#[test]
fn pull_of_unknown_client_is_not_found() {
    let mut state = fresh();
    let c = config(None);
    match handle_pull_at(&mut state, None, &c, "nobody", 5) {
        Err(e) => assert_eq!(e, (404, "Unknown clientId".to_string())),
        Ok(_) => panic!("expected an error"),
    }
}

#[test]
fn pull_rejects_bad_token_and_keeps_the_queue() {
    let mut state = fresh();
    let c = config(Some("t"));
    state.register_client_at("C".to_string(), "1.0".to_string(), 0);
    assert!(state.enqueue_tool_request(request("r1", "studio-run_script")));
    match handle_pull_at(&mut state, Some("Bearer x"), &c, "C", 5) {
        Err(e) => assert_eq!(e, unauthorized()),
        Ok(_) => panic!("expected an error"),
    }
    assert_eq!(state.client_info()[0].2, 0);
    assert_eq!(state.drain_outbound_at("C", 6).len(), 1);
}

#[test]
fn pull_with_clock() {
    let mut state = fresh();
    let c = config(None);
    state.register_client_at("C".to_string(), "1.0".to_string(), 0);
    assert!(matches!(handle_pull(&mut state, None, &c, "C"), Ok(PullStep::Wait(_))));
    assert!(state.client_info()[0].2 > 0);
    assert!(state.enqueue_tool_request(request("r1", "studio-run_script")));
    assert_eq!(finish_pull(&mut state, "C", true).len(), 1);
    assert!(finish_pull(&mut state, "C", false).is_empty());
}

#[test]
fn log_event_ingestion() {
    let mut state = fresh();
    let c = config(None);
    let body = BridgePushPayload {
        responses: vec![],
        events: vec![event("studio.log", obj(vec![("level", s("warning")), ("message", s("oops"))]))],
    };
    assert_eq!(handle_push_at(&mut state, None, &c, "C", body, 1_234), Ok(PushReport { unmatched: vec![] }));
    assert_eq!(handle_status_at(&mut state, None, &c, 0).unwrap().log_buffer_size, 1);
    let logs = state.get_logs(0, 10);
    assert_eq!(logs[0].seq, 1);
    assert_eq!(logs[0].ts, 1_234);
    assert_eq!(logs[0].level, "warning");
    assert_eq!(logs[0].message, "oops");
    assert_eq!(logs[0].session_id, None);
}

#[test]
fn log_event_defaults() {
    let mut state = fresh();
    assert_eq!(handle_event_at(&mut state, &event("studio.log", Json::Null), 7), EventKind::Log);
    assert_eq!(
        handle_event_at(
            &mut state,
            &event("studio.log", obj(vec![("level", Json::Bool(true)), ("message", obj(vec![])), ("sessionId", s("s9"))])),
            8
        ),
        EventKind::Log
    );
    let logs = state.get_logs(0, 10);
    assert_eq!(logs[0].level, "output");
    assert_eq!(logs[0].message, "");
    assert_eq!(logs[0].session_id, None);
    assert_eq!(logs[1].level, "output");
    assert_eq!(logs[1].message, "");
    assert_eq!(logs[1].session_id, Some("s9".to_string()));
}

#[test]
fn playtest_event_replaces_the_snapshot() {
    let mut state = fresh();
    let e = event(
        "studio.playtest_state",
        obj(vec![("active", Json::Bool(true)), ("sessionId", s("s1")), ("mode", s("run"))]),
    );
    assert_eq!(handle_event_at(&mut state, &e, 0), EventKind::PlaytestState);
    assert_eq!(state.playtest_info(), (true, Some("s1".to_string()), Some("run".to_string())));
    let e2 = event("studio.playtest_state", obj(vec![("active", s("yes"))]));
    assert_eq!(handle_event_at(&mut state, &e2, 0), EventKind::PlaytestState);
    assert_eq!(state.playtest_info(), (false, None, None));
    assert_eq!(state.log_buffer_size(), 0);
}

#[test]
fn other_events_change_nothing() {
    let mut state = fresh();
    assert_eq!(handle_event_at(&mut state, &event("studio.capture", obj(vec![])), 0), EventKind::Capture);
    assert_eq!(handle_event_at(&mut state, &event("studio.other", obj(vec![])), 0), EventKind::Unknown);
    assert_eq!(handle_event(&mut state, &event("", Json::Null)), EventKind::Unknown);
    assert_eq!(state.log_buffer_size(), 0);
    assert!(!state.is_playtest_active());
}

#[test]
fn push_resolves_and_reports_unmatched() {
    let mut state = fresh();
    let c = config(None);
    let (tx, mut rx) = tokio::sync::oneshot::channel();
    state.register_pending("R".to_string(), tx);
    let body = BridgePushPayload {
        responses: vec![response("R"), response("R"), response("late")],
        events: vec![
            event("studio.log", obj(vec![("message", s("a"))])),
            event("studio.playtest_state", obj(vec![("active", Json::Bool(true))])),
            event("studio.log", obj(vec![("message", s("b"))])),
        ],
    };
    let report = handle_push_at(&mut state, None, &c, "C", body, 10).unwrap();
    assert_eq!(report.unmatched, vec!["R".to_string(), "late".to_string()]);
    assert_eq!(rx.try_recv().unwrap(), response("R"));
    assert_eq!(
        handle_status_at(&mut state, None, &c, 10),
        Ok(BridgeStatusResponse { connected_clients: 0, pending_calls: 0, log_buffer_size: 2, playtest_active: true })
    );
    let messages: Vec<String> = state.get_logs(0, 10).into_iter().map(|e| e.message).collect();
    assert_eq!(messages, vec!["a", "b"]);
}

#[test]
fn second_push_is_a_no_op() {
    let mut state = fresh();
    let c = config(None);
    let (tx, _rx) = tokio::sync::oneshot::channel();
    let (tx2, _rx2) = tokio::sync::oneshot::channel();
    state.register_pending("R".to_string(), tx);
    state.register_pending("S".to_string(), tx2);
    let first = handle_push_at(&mut state, None, &c, "C", BridgePushPayload { responses: vec![response("R")], events: vec![] }, 0);
    assert_eq!(first, Ok(PushReport { unmatched: vec![] }));
    let before = handle_status_at(&mut state, None, &c, 0).unwrap();
    let second = handle_push(&mut state, None, &c, "C", BridgePushPayload { responses: vec![response("R")], events: vec![] });
    assert_eq!(second, Ok(PushReport { unmatched: vec!["R".to_string()] }));
    assert_eq!(handle_status_at(&mut state, None, &c, 0).unwrap(), before);
    assert_eq!(before.pending_calls, 1);
}

#[test]
fn push_rejects_bad_token_and_changes_nothing() {
    let mut state = fresh();
    let c = config(Some("t"));
    let (tx, mut rx) = tokio::sync::oneshot::channel();
    state.register_pending("R".to_string(), tx);
    let body = BridgePushPayload {
        responses: vec![response("R")],
        events: vec![event("studio.log", obj(vec![]))],
    };
    assert_eq!(handle_push_at(&mut state, Some("nope"), &c, "C", body, 0), Err(unauthorized()));
    assert_eq!(state.pending_call_count(), 1);
    assert_eq!(state.log_buffer_size(), 0);
    assert!(rx.try_recv().is_err());
}

#[test]
fn health_is_ok() {
    assert_eq!(handle_health(), "ok");
}

#[test]
fn status_prunes_and_needs_the_token() {
    let mut state = fresh();
    let c = config(Some("t"));
    state.register_client_at("C".to_string(), "1.0".to_string(), 0);
    assert_eq!(handle_status_at(&mut state, None, &c, 100_000), Err(unauthorized()));
    assert_eq!(state.client_info().len(), 1);
    assert_eq!(handle_status_at(&mut state, Some("Bearer t"), &c, 100_000).unwrap().connected_clients, 0);
    assert_eq!(state.client_info().len(), 0);
}
