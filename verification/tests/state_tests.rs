use std::path::PathBuf;
use studio_mcp_bridge::json::Json;
use studio_mcp_bridge::state::{is_stale, prefers_bridge, PlaytestState, SharedState};
use studio_mcp_bridge::types::{BridgeToolRequest, BridgeToolResponse};

fn fresh() -> SharedState {
    SharedState::new(PathBuf::from("captures"))
}

fn request(id: &str, tool: &str) -> BridgeToolRequest {
    BridgeToolRequest {
        request_id: id.to_string(),
        tool_name: tool.to_string(),
        arguments: Json::Object(vec![]),
    }
}

fn response(id: &str) -> BridgeToolResponse {
    BridgeToolResponse {
        request_id: id.to_string(),
        success: true,
        result: Some(Json::Str("1".to_string())),
        error: None,
    }
}

#[test]
fn new_state_is_empty() {
    let mut state = fresh();
    assert_eq!(state.connected_client_count_at(0), 0);
    assert_eq!(state.pending_call_count(), 0);
    assert_eq!(state.log_buffer_size(), 0);
    assert_eq!(state.log_seq(), 0);
    assert!(!state.is_playtest_active());
    assert_eq!(state.playtest_info(), (false, None, None));
    assert_eq!(state.first_client_id(), None);
    assert_eq!(state.capture_dir(), &PathBuf::from("captures"));
}

#[test]
fn default_playtest_state_is_inactive() {
    let p = PlaytestState::default();
    assert_eq!(p, PlaytestState { active: false, session_id: None, mode: None });
}

#[test]
fn register_adds_client_with_empty_queue() {
    let mut state = fresh();
    state.register_client_at("c1".to_string(), "1.0".to_string(), 1_000);
    assert!(state.has_connected_client_at(1_000));
    assert_eq!(state.first_client_id(), Some("c1".to_string()));
    assert_eq!(
        state.client_info(),
        vec![("c1".to_string(), "1.0".to_string(), 1_000, false)]
    );
    assert!(state.get_notify("c1").is_some());
    assert!(state.get_notify("nobody").is_none());
    assert!(state.drain_outbound_at("c1", 1_001).is_empty());
}

#[test]
fn register_twice_replaces_the_client() {
    let mut state = fresh();
    state.register_client_at("c1".to_string(), "1.0".to_string(), 10);
    assert!(state.enqueue_tool_request(request("r1", "studio-run_script")));
    state.register_client_at("c1".to_string(), "2.0-playtest".to_string(), 20);
    assert_eq!(state.connected_client_count_at(20), 1);
    assert_eq!(
        state.client_info(),
        vec![("c1".to_string(), "2.0-playtest".to_string(), 20, true)]
    );
    assert!(state.drain_outbound_at("c1", 21).is_empty());
}

#[test]
fn register_with_clock_then_count() {
    let mut state = fresh();
    state.register_client("c1".to_string(), "1.0".to_string());
    assert!(state.has_connected_client());
    assert_eq!(state.connected_client_count(), 1);
    state.prune_stale_clients();
    assert_eq!(state.client_info().len(), 1);
    assert!(state.client_info()[0].2 > 1_500_000_000_000);
}

#[test]
fn remove_client_drops_only_that_client() {
    let mut state = fresh();
    state.register_client_at("a".to_string(), "1.0".to_string(), 0);
    state.register_client_at("b".to_string(), "1.0".to_string(), 0);
    state.remove_client("a");
    assert_eq!(state.first_client_id(), Some("b".to_string()));
    state.remove_client("missing");
    assert_eq!(state.connected_client_count_at(0), 1);
}

#[test]
fn staleness_is_strictly_more_than_sixty_seconds() {
    assert!(!is_stale(0, 60_000));
    assert!(is_stale(0, 60_001));
    assert!(!is_stale(100, 0));
    assert!(is_stale(i64::MIN, i64::MAX));
    assert!(!is_stale(i64::MAX, i64::MIN));
}

#[test]
fn prune_removes_stale_and_keeps_fresh() {
    let mut state = fresh();
    state.register_client_at("old".to_string(), "1.0".to_string(), 0);
    state.register_client_at("edge".to_string(), "1.0".to_string(), 40_000);
    state.register_client_at("new".to_string(), "1.0".to_string(), 90_000);
    state.prune_stale_clients_at(100_000);
    let ids: Vec<String> = state.client_info().into_iter().map(|c| c.0).collect();
    assert_eq!(ids, vec!["edge".to_string(), "new".to_string()]);
    assert_eq!(state.connected_client_count_at(100_001), 1);
    assert_eq!(state.first_client_id(), Some("new".to_string()));
    assert!(!state.has_connected_client_at(1_000_000));
    assert_eq!(state.first_client_id(), None);
}

#[test]
fn drain_refreshes_last_poll() {
    let mut state = fresh();
    state.register_client_at("c".to_string(), "1.0".to_string(), 0);
    assert!(state.drain_outbound_at("c", 50_000).is_empty());
    assert_eq!(state.connected_client_count_at(100_000), 1);
    assert_eq!(state.client_info()[0].2, 50_000);
    assert_eq!(state.connected_client_count_at(110_001), 0);
}

#[test]
fn drain_with_clock_takes_the_queue() {
    let mut state = fresh();
    state.register_client_at("c".to_string(), "1.0".to_string(), 0);
    assert!(state.enqueue_tool_request(request("r1", "studio-run_script")));
    let got = state.drain_outbound("c");
    assert_eq!(got, vec![request("r1", "studio-run_script")]);
    assert!(state.client_info()[0].2 > 0);
}

#[test]
fn prefers_bridge_names() {
    for tool in [
        "studio-virtualuser_key",
        "studio-virtualuser_mouse_button",
        "studio-virtualuser_move_mouse",
        "studio-npc_driver_start",
        "studio-npc_driver_command",
        "studio-npc_driver_stop",
        "studio-playtest_stop",
    ] {
        assert!(prefers_bridge(tool), "{}", tool);
    }
    for tool in ["studio-run_script", "studio-playtest_play", "virtualuser_key", "", "studio-status"] {
        assert!(!prefers_bridge(tool), "{}", tool);
    }
}

#[test]
fn enqueue_without_client_is_refused() {
    let mut state = fresh();
    assert!(!state.enqueue_tool_request(request("r1", "studio-run_script")));
}

#[test]
fn routing_with_two_clients() {
    let mut state = fresh();
    state.register_client_at("C1".to_string(), "1.0".to_string(), 0);
    state.register_client_at("C2".to_string(), "1.0-playtest".to_string(), 0);
    assert!(state.enqueue_tool_request(request("r1", "studio-virtualuser_key")));
    assert!(state.enqueue_tool_request(request("r2", "studio-run_script")));
    assert_eq!(state.drain_outbound_at("C2", 1), vec![request("r1", "studio-virtualuser_key")]);
    assert_eq!(state.drain_outbound_at("C1", 1), vec![request("r2", "studio-run_script")]);
    assert!(state.drain_outbound_at("C1", 2).is_empty());
    assert!(state.drain_outbound_at("C2", 2).is_empty());
}

#[test]
fn routing_falls_back_to_latest_poller() {
    let mut state = fresh();
    state.register_client_at("a".to_string(), "1.0".to_string(), 5);
    state.register_client_at("b".to_string(), "1.1".to_string(), 9);
    state.register_client_at("c".to_string(), "1.2".to_string(), 7);
    assert!(state.enqueue_tool_request(request("r1", "studio-playtest_stop")));
    assert!(state.drain_outbound_at("a", 5).is_empty());
    assert!(state.drain_outbound_at("c", 7).is_empty());
    assert_eq!(state.drain_outbound_at("b", 9), vec![request("r1", "studio-playtest_stop")]);
}

#[test]
fn routing_fallback_tie_goes_to_the_later_registration() {
    let mut state = fresh();
    state.register_client_at("a".to_string(), "x-playtest".to_string(), 5);
    state.register_client_at("b".to_string(), "y-playtest".to_string(), 5);
    assert!(state.enqueue_tool_request(request("r1", "studio-run_script")));
    assert_eq!(state.drain_outbound_at("b", 5).len(), 1);
    assert!(state.drain_outbound_at("a", 5).is_empty());
}

#[test]
fn routing_prefers_first_client_of_the_kind() {
    let mut state = fresh();
    state.register_client_at("m1".to_string(), "1.0".to_string(), 0);
    state.register_client_at("m2".to_string(), "1.0".to_string(), 50);
    assert!(state.enqueue_tool_request(request("r1", "studio-run_script")));
    assert_eq!(state.drain_outbound_at("m1", 60).len(), 1);
    assert!(state.drain_outbound_at("m2", 60).is_empty());
}

#[test]
fn queue_is_fifo_and_drain_is_total() {
    let mut state = fresh();
    state.register_client_at("c".to_string(), "1.0".to_string(), 0);
    for i in 0..5 {
        assert!(state.enqueue_tool_request(request(&format!("r{}", i), "studio-run_script")));
    }
    let got: Vec<String> =
        state.drain_outbound_at("c", 1).into_iter().map(|r| r.request_id).collect();
    assert_eq!(got, vec!["r0", "r1", "r2", "r3", "r4"]);
    assert!(state.drain_outbound_at("c", 2).is_empty());
}

#[test]
fn drain_of_unknown_client_is_empty() {
    let mut state = fresh();
    state.register_client_at("c".to_string(), "1.0".to_string(), 0);
    assert!(state.enqueue_tool_request(request("r", "studio-run_script")));
    assert!(state.drain_outbound_at("other", 1).is_empty());
    assert_eq!(state.drain_outbound_at("c", 1).len(), 1);
}

#[test]
fn enqueue_signals_the_wakeup() {
    let mut state = fresh();
    state.register_client_at("c".to_string(), "1.0".to_string(), 0);
    let wake = state.get_notify("c").unwrap();
    assert!(state.enqueue_tool_request(request("r", "studio-run_script")));
    let rt = tokio::runtime::Builder::new_current_thread().enable_time().build().unwrap();
    let woke = rt.block_on(async {
        tokio::time::timeout(std::time::Duration::from_millis(200), wake.notified()).await.is_ok()
    });
    assert!(woke);
}

#[test]
fn resolve_delivers_to_the_registered_slot() {
    let mut state = fresh();
    let (tx, mut rx) = tokio::sync::oneshot::channel();
    state.register_pending("r1".to_string(), tx);
    assert_eq!(state.pending_call_count(), 1);
    assert!(state.resolve_pending("r1", response("r1")));
    assert_eq!(state.pending_call_count(), 0);
    assert_eq!(rx.try_recv().unwrap(), response("r1"));
}

#[test]
fn second_resolve_is_a_no_op() {
    let mut state = fresh();
    let (tx, mut rx) = tokio::sync::oneshot::channel();
    let (tx2, mut rx2) = tokio::sync::oneshot::channel();
    state.register_pending("r1".to_string(), tx);
    state.register_pending("r2".to_string(), tx2);
    assert!(state.resolve_pending("r1", response("r1")));
    assert!(!state.resolve_pending("r1", response("r1")));
    assert_eq!(state.pending_call_count(), 1);
    assert!(rx.try_recv().is_ok());
    assert!(rx2.try_recv().is_err());
}

#[test]
fn resolve_of_unknown_id_changes_nothing() {
    let mut state = fresh();
    let (tx, _rx) = tokio::sync::oneshot::channel();
    state.register_pending("r1".to_string(), tx);
    assert!(!state.resolve_pending("zzz", response("zzz")));
    assert_eq!(state.pending_call_count(), 1);
}

#[test]
fn register_pending_twice_replaces_the_slot() {
    let mut state = fresh();
    let (tx, mut rx) = tokio::sync::oneshot::channel();
    let (tx2, mut rx2) = tokio::sync::oneshot::channel();
    state.register_pending("r1".to_string(), tx);
    state.register_pending("r1".to_string(), tx2);
    assert_eq!(state.pending_call_count(), 1);
    assert!(matches!(rx.try_recv(), Err(tokio::sync::oneshot::error::TryRecvError::Closed)));
    assert!(state.resolve_pending("r1", response("r1")));
    assert_eq!(rx2.try_recv().unwrap(), response("r1"));
}

#[test]
fn take_pending_hands_out_the_slot() {
    let mut state = fresh();
    let (tx, mut rx) = tokio::sync::oneshot::channel();
    state.register_pending("r1".to_string(), tx);
    let slot = state.take_pending("r1").unwrap();
    assert_eq!(state.pending_call_count(), 0);
    assert!(slot.send(response("r1")).is_ok());
    assert_eq!(rx.try_recv().unwrap(), response("r1"));
    assert!(state.take_pending("r1").is_none());
}

#[test]
fn push_log_numbers_entries_from_one() {
    let mut state = fresh();
    state.push_log_at("warning".to_string(), "oops".to_string(), None, 1_500);
    state.push_log_at("output".to_string(), "hi".to_string(), Some("s1".to_string()), 2_500);
    let logs = state.get_logs(0, 10);
    assert_eq!(logs.len(), 2);
    assert_eq!(logs[0].seq, 1);
    assert_eq!(logs[0].ts, 1_500);
    assert_eq!(logs[0].level, "warning");
    assert_eq!(logs[0].message, "oops");
    assert_eq!(logs[0].session_id, None);
    assert_eq!(logs[1].seq, 2);
    assert_eq!(logs[1].session_id, Some("s1".to_string()));
    assert_eq!(state.log_seq(), 2);
    assert_eq!(state.log_buffer_size(), 2);
}

#[test]
fn push_log_with_clock() {
    let mut state = fresh();
    state.push_log("info".to_string(), "m".to_string(), None);
    let logs = state.get_logs(0, 1);
    assert_eq!(logs[0].seq, 1);
    assert!(logs[0].ts > 1_500_000_000_000);
}

#[test]
fn log_ring_is_bounded_and_evicts_the_oldest() {
    let mut state = fresh();
    for i in 0..501 {
        state.push_log_at("output".to_string(), format!("m{}", i), None, i);
        assert!(state.log_buffer_size() <= 500);
    }
    assert_eq!(state.log_buffer_size(), 500);
    let logs = state.get_logs(0, 1000);
    assert_eq!(logs.len(), 500);
    assert_eq!(logs[0].seq, 2);
    assert_eq!(logs[0].message, "m1");
    assert_eq!(logs[499].seq, 501);
    for w in logs.windows(2) {
        assert!(w[1].seq > w[0].seq);
    }
    state.push_log_at("output".to_string(), "last".to_string(), None, 0);
    assert_eq!(state.log_buffer_size(), 500);
    assert_eq!(state.get_logs(0, 1)[0].seq, 3);
    assert_eq!(state.log_seq(), 502);
}

#[test]
fn get_logs_filters_and_limits() {
    let mut state = fresh();
    for i in 0..10 {
        state.push_log_at("output".to_string(), format!("m{}", i), None, i);
    }
    let seqs: Vec<u64> = state.get_logs(4, 3).iter().map(|e| e.seq).collect();
    assert_eq!(seqs, vec![5, 6, 7]);
    let seqs: Vec<u64> = state.get_logs(8, 100).iter().map(|e| e.seq).collect();
    assert_eq!(seqs, vec![9, 10]);
    assert!(state.get_logs(10, 100).is_empty());
    assert!(state.get_logs(0, 0).is_empty());
}

#[test]
fn update_playtest_overwrites_wholesale() {
    let mut state = fresh();
    state.update_playtest(true, Some("s".to_string()), Some("play".to_string()));
    assert!(state.is_playtest_active());
    assert_eq!(state.playtest_info(), (true, Some("s".to_string()), Some("play".to_string())));
    state.update_playtest(false, None, None);
    assert_eq!(state.playtest_info(), (false, None, None));
}
