//! The stdio side: dispatch of JSON-RPC messages and the orchestration of
//! tool calls.
//!
//! A tool call that has to wait for a plugin is handled in two steps. The
//! first step decides, registers the reply slot and queues the request; the
//! embedding program then awaits the reply with a deadline and hands the
//! outcome to the second step, which produces the response.

use crate::json::{
    int_number, items_view, json_parse, lemma_items_view_push, pretty_text, Json, JsonView,
};
use crate::model::{ClientModel, StateModel};
use crate::outside::{new_uuid, now_millis, reply_channel};
use crate::state::SharedState;
use crate::text::{concat3, opt_str_text};
use crate::types::{
    error_response, success_response, text_result, tool_def_json, tool_result_json,
    BridgeToolRequest, BridgeToolRequestView, BridgeToolResponse, BridgeToolResponseView,
    JsonRpcMessage, JsonRpcMessageView, JsonRpcResponse, JsonRpcResponseView, McpToolDef,
    McpToolResult,
};
use tokio::sync::oneshot::{Receiver, Sender};
use vstd::prelude::*;
use vstd::string::*;

verus! {

/// The name that the server reports for itself.
pub const SERVER_NAME: &'static str = "roblox-studio-yippieblox-mcp-server";

/// The version that the server reports for itself.
pub const SERVER_VERSION: &'static str = "0.1.0";

/// The revision of the Model Context Protocol that the server speaks.
pub const PROTOCOL_VERSION: &'static str = "2025-11-25";

/// How long a tool call waits for the plugin's reply, in seconds.
pub const TOOL_CALL_TIMEOUT_SECS: u64 = 30;

/// JSON-RPC error code: the line is not a valid message.
pub const PARSE_ERROR: i64 = -32700;

/// JSON-RPC error code: the method is not known.
pub const METHOD_NOT_FOUND: i64 = -32601;

/// JSON-RPC error code: the parameters are not valid.
pub const INVALID_PARAMS: i64 = -32602;

/// The tool that the server answers from its own state.
pub const STATUS_TOOL: &'static str = "studio-status";

pub const MSG_MISSING_NAME: &'static str = "Missing 'name' in tools/call params";

pub const MSG_NO_SCREENSHOT: &'static str =
    "Unsupported: CaptureService returns rbxtemp:// content IDs that cannot be extracted as files from a plugin.";

pub const MSG_NO_VIDEO: &'static str =
    "Unsupported: CaptureService does not expose a video recording API.";

pub const MSG_NO_PLUGIN: &'static str =
    "No Roblox Studio plugin connected. Install the plugin and click Connect.";

pub const MSG_ENQUEUE_FAILED: &'static str = "Failed to enqueue tool request to plugin";

pub const MSG_UNKNOWN_ERROR: &'static str = "Unknown plugin error";

pub const MSG_DISCONNECTED: &'static str = "Plugin disconnected while processing tool call";

// ─── Notifications ────────────────────────────────────────────

/// What a message without an id announces.
#[derive(Debug, Clone, Copy, PartialEq, Eq)]
pub enum Notification {
    Initialized,
    Cancelled,
    Unknown,
}

/// The kind of the notification `method`.
pub open spec fn notification_kind(method: Seq<char>) -> Notification {
    if method == "notifications/initialized"@ {
        Notification::Initialized
    } else if method == "notifications/cancelled"@ {
        Notification::Cancelled
    } else {
        Notification::Unknown
    }
}

/// Classifies a notification. None of them is answered and none changes
/// the state.
pub fn handle_notification(method: &str) -> (r: Notification)
    ensures
        r == notification_kind(method@),
{
    if method.eq("notifications/initialized") {
        Notification::Initialized
    } else if method.eq("notifications/cancelled") {
        Notification::Cancelled
    } else {
        Notification::Unknown
    }
}

// ─── Plain requests ───────────────────────────────────────────

/// The result of `initialize`.
pub open spec fn initialize_result() -> JsonView {
    JsonView::empty_object().with("protocolVersion"@, JsonView::Str(PROTOCOL_VERSION@)).with(
        "capabilities"@,
        JsonView::empty_object().with("tools"@, JsonView::empty_object()),
    ).with(
        "serverInfo"@,
        JsonView::empty_object().with("name"@, JsonView::Str(SERVER_NAME@)).with(
            "version"@,
            JsonView::Str(SERVER_VERSION@),
        ),
    )
}

/// Answers `initialize` with the protocol revision, the capabilities and
/// the server's name and version.
pub fn handle_initialize(id: Json) -> (r: JsonRpcResponse)
    ensures
        r@ == success_response(id@, initialize_result()),
{
    let capabilities = Json::empty_object().with("tools", Json::empty_object());
    let server_info = Json::empty_object().with("name", Json::string(SERVER_NAME)).with(
        "version",
        Json::string(SERVER_VERSION),
    );
    let result = Json::empty_object().with("protocolVersion", Json::string(PROTOCOL_VERSION)).with(
        "capabilities",
        capabilities,
    ).with("serverInfo", server_info);
    JsonRpcResponse::success(id, result)
}

/// The result of `tools/list` for the given tools.
pub open spec fn tools_list_result(tools: Seq<McpToolDef>) -> JsonView {
    JsonView::empty_object().with(
        "tools"@,
        JsonView::Array(tools.map_values(|t: McpToolDef| tool_def_json(t@))),
    )
}

/// Answers `tools/list` with the given tools, in their order.
pub fn handle_tools_list(id: Json, tools: &Vec<McpToolDef>) -> (r: JsonRpcResponse)
    ensures
        r@ == success_response(id@, tools_list_result(tools@)),
{
    let ghost wanted = tools@.map_values(|t: McpToolDef| tool_def_json(t@));
    let mut items: Vec<Json> = Vec::new();
    let mut i: usize = 0;
    while i < tools.len()
        invariant
            i <= tools.len(),
            wanted == tools@.map_values(|t: McpToolDef| tool_def_json(t@)),
            items_view(items@) == wanted.subrange(0, i as int),
        decreases tools.len() - i,
    {
        let item = tools[i].to_json();
        proof {
            lemma_items_view_push(items@, item);
            assert(wanted.subrange(0, i as int).push(item@) =~= wanted.subrange(0, i as int + 1));
        }
        items.push(item);
        i = i + 1;
    }
    proof {
        assert(wanted.subrange(0, i as int) =~= wanted);
    }
    let result = Json::empty_object().with("tools", Json::array(items));
    JsonRpcResponse::success(id, result)
}

/// The response that wraps one piece of text as the result of a tool call.
pub open spec fn tool_reply(id: JsonView, text: Seq<char>, is_error: bool) -> JsonRpcResponseView {
    success_response(id, tool_result_json(text_result(text, is_error)))
}

/// A successful JSON-RPC response whose result is a tool result with one
/// piece of text. Failures of a tool travel this way too, marked by
/// `is_error`.
pub fn tool_reply_response(id: Json, text: &str, is_error: bool) -> (r: JsonRpcResponse)
    ensures
        r@ == tool_reply(id@, text@, is_error),
{
    let result = if is_error {
        McpToolResult::error_text(text)
    } else {
        McpToolResult::text(text)
    };
    JsonRpcResponse::success(id, result.to_value())
}

// ─── The status tool ──────────────────────────────────────────

/// The whole seconds between a last poll and `now`, both in milliseconds,
/// rounded toward zero.
pub open spec fn age_secs_of(now: int, last_poll: int) -> int {
    if now >= last_poll {
        (now - last_poll) / 1000
    } else {
        -((last_poll - now) / 1000)
    }
}

/// The whole seconds between a last poll and `now`.
pub fn age_secs(now: i64, last_poll: i64) -> (r: i64)
    ensures
        r == age_secs_of(now as int, last_poll as int),
{
    let elapsed: i128 = (now as i128) - (last_poll as i128);
    if elapsed >= 0 {
        (elapsed / 1000) as i64
    } else {
        let back: i128 = (0 - elapsed) / 1000;
        (0 - back) as i64
    }
}

/// A JSON string, or `null` where there is none.
pub open spec fn opt_str_json(s: Option<Seq<char>>) -> JsonView {
    match s {
        Some(t) => JsonView::Str(t),
        None => JsonView::Null,
    }
}

/// One client in the status report.
pub open spec fn client_status_json(c: ClientModel, now: int) -> JsonView {
    JsonView::empty_object().with("clientId"@, JsonView::Str(c.id)).with(
        "version"@,
        JsonView::Str(c.version),
    ).with("isBridge"@, JsonView::Bool(c.is_playtest_bridge())).with(
        "lastPollSecsAgo"@,
        JsonView::Number(int_number(age_secs_of(now, c.last_poll))),
    )
}

/// The status report of a state at `now`: whether a client is connected,
/// the first client's id, every client, and the playtest snapshot.
pub open spec fn status_json(m: StateModel, now: int) -> JsonView {
    JsonView::empty_object().with("connected"@, JsonView::Bool(m.clients.len() > 0)).with(
        "clientId"@,
        if m.clients.len() > 0 {
            JsonView::Str(m.clients[0].id)
        } else {
            JsonView::Null
        },
    ).with(
        "clients"@,
        JsonView::Array(m.clients.map_values(|c: ClientModel| client_status_json(c, now))),
    ).with(
        "playtest"@,
        JsonView::empty_object().with("active"@, JsonView::Bool(m.playtest.active)).with(
            "sessionId"@,
            opt_str_json(m.playtest.session_id),
        ).with("mode"@, opt_str_json(m.playtest.mode)),
    )
}

/// The reply of the status tool for a state that was pruned at `now`.
pub open spec fn status_reply(m: StateModel, id: JsonView, now: int) -> JsonRpcResponseView {
    tool_reply(id, pretty_text(status_json(m.prune(now), now)), false)
}

/// Answers the status tool from the state as it is after pruning at `now`.
/// The report is the indented text of the status document.
pub fn handle_status_tool_at(state: &mut SharedState, id: Json, now: i64) -> (r: JsonRpcResponse)
    requires
        old(state)@.wf(),
    ensures
        final(state)@ == old(state)@.prune(now as int),
        final(state)@.wf(),
        r@ == status_reply(old(state)@, id@, now as int),
{
    let connected = state.has_connected_client_at(now);
    let client_id = state.first_client_id();
    let playtest = state.playtest_info();
    let info = state.client_info();
    let ghost m = state@;
    let ghost wanted = m.clients.map_values(|c: ClientModel| client_status_json(c, now as int));
    let mut clients: Vec<Json> = Vec::new();
    let mut i: usize = 0;
    while i < info.len()
        invariant
            i <= info.len(),
            info.len() == m.clients.len(),
            forall|j: int|
                0 <= j < info.len() ==> {
                    let c = m.clients[j];
                    &&& (#[trigger] info[j]).0@ == c.id
                    &&& info[j].1@ == c.version
                    &&& info[j].2 == c.last_poll
                    &&& info[j].3 == c.is_playtest_bridge()
                },
            wanted == m.clients.map_values(|c: ClientModel| client_status_json(c, now as int)),
            items_view(clients@) == wanted.subrange(0, i as int),
        decreases info.len() - i,
    {
        let entry = &info[i];
        let item = Json::empty_object().with("clientId", Json::Str(entry.0.clone())).with(
            "version",
            Json::Str(entry.1.clone()),
        ).with("isBridge", Json::Bool(entry.3)).with(
            "lastPollSecsAgo",
            Json::integer(age_secs(now, entry.2)),
        );
        proof {
            assert(item@ == client_status_json(m.clients[i as int], now as int));
            lemma_items_view_push(clients@, item);
            assert(wanted.subrange(0, i as int).push(item@) =~= wanted.subrange(0, i as int + 1));
        }
        clients.push(item);
        i = i + 1;
    }
    proof {
        assert(wanted.subrange(0, i as int) =~= wanted);
    }
    let playtest_doc = Json::empty_object().with("active", Json::Bool(playtest.0)).with(
        "sessionId",
        Json::opt_string(&playtest.1),
    ).with("mode", Json::opt_string(&playtest.2));
    let report = Json::empty_object().with("connected", Json::Bool(connected)).with(
        "clientId",
        Json::opt_string(&client_id),
    ).with("clients", Json::array(clients)).with("playtest", playtest_doc);
    proof {
        assert(report@ == status_json(m, now as int));
    }
    let text = report.to_pretty_text();
    tool_reply_response(id, text.as_str(), false)
}

/// Answers the status tool at the current time.
pub fn handle_status_tool(state: &mut SharedState, id: Json) -> (r: JsonRpcResponse)
    requires
        old(state)@.wf(),
    ensures
        final(state)@.wf(),
        exists|now: int|
            final(state)@ == old(state)@.prune(now) && r@ == status_reply(old(state)@, id@, now),
{
    let now = now_millis();
    handle_status_tool_at(state, id, now)
}

// ─── Tool calls ───────────────────────────────────────────────

/// A tool call that was handed to a plugin and awaits its reply.
#[derive(Debug, PartialEq)]
pub struct ForwardedCall {
    pub id: Json,
    pub tool_name: String,
    pub request_id: String,
}

pub struct ForwardedCallView {
    pub id: JsonView,
    pub tool_name: Seq<char>,
    pub request_id: Seq<char>,
}

impl View for ForwardedCall {
    type V = ForwardedCallView;

    open spec fn view(&self) -> ForwardedCallView {
        ForwardedCallView {
            id: self.id@,
            tool_name: self.tool_name@,
            request_id: self.request_id@,
        }
    }
}

/// What is decided about a request: an immediate response, or a tool call
/// that now awaits the plugin.
#[derive(Debug, PartialEq)]
pub enum ToolCallPlan {
    Reply(JsonRpcResponse),
    Forwarded(ForwardedCall),
}

pub enum ToolCallPlanView {
    Reply(JsonRpcResponseView),
    Forwarded(ForwardedCallView),
}

impl View for ToolCallPlan {
    type V = ToolCallPlanView;

    open spec fn view(&self) -> ToolCallPlanView {
        match *self {
            ToolCallPlan::Reply(r) => ToolCallPlanView::Reply(r@),
            ToolCallPlan::Forwarded(c) => ToolCallPlanView::Forwarded(c@),
        }
    }
}

/// A decision together with the receiving half of the reply slot, where
/// the call was forwarded.
pub enum ToolCallStep {
    Reply(JsonRpcResponse),
    Await(ForwardedCall, Receiver<BridgeToolResponse>),
}

impl ToolCallStep {
    /// The decision that the step carries.
    pub open spec fn plan(self) -> ToolCallPlanView {
        match self {
            ToolCallStep::Reply(r) => ToolCallPlanView::Reply(r@),
            ToolCallStep::Await(c, _) => ToolCallPlanView::Forwarded(c@),
        }
    }
}

/// How the wait for a plugin's reply ended.
#[derive(Debug, PartialEq)]
pub enum ToolCallOutcome {
    /// The plugin answered.
    Answered(BridgeToolResponse),
    /// The reply slot was dropped before an answer came.
    Disconnected,
    /// The deadline passed.
    TimedOut,
}

pub enum ToolCallOutcomeView {
    Answered(BridgeToolResponseView),
    Disconnected,
    TimedOut,
}

impl View for ToolCallOutcome {
    type V = ToolCallOutcomeView;

    open spec fn view(&self) -> ToolCallOutcomeView {
        match *self {
            ToolCallOutcome::Answered(r) => ToolCallOutcomeView::Answered(r@),
            ToolCallOutcome::Disconnected => ToolCallOutcomeView::Disconnected,
            ToolCallOutcome::TimedOut => ToolCallOutcomeView::TimedOut,
        }
    }
}

/// Why a tool is not supported, for the tools that are not.
pub open spec fn disabled_reason(tool_name: Seq<char>) -> Option<Seq<char>> {
    if tool_name == "studio-capture_screenshot"@ {
        Some(MSG_NO_SCREENSHOT@)
    } else if tool_name == "studio-capture_video_start"@ || tool_name
        == "studio-capture_video_stop"@ {
        Some(MSG_NO_VIDEO@)
    } else {
        None
    }
}

/// Why a tool is not supported, for the tools that are not.
pub fn disabled_tool_reason(tool_name: &str) -> (r: Option<&'static str>)
    ensures
        opt_str_text(r) == disabled_reason(tool_name@),
{
    if tool_name.eq("studio-capture_screenshot") {
        Some(MSG_NO_SCREENSHOT)
    } else if tool_name.eq("studio-capture_video_start") || tool_name.eq(
        "studio-capture_video_stop",
    ) {
        Some(MSG_NO_VIDEO)
    } else {
        None
    }
}

/// The arguments of a tool call: the member `arguments`, or the empty
/// object where it is missing.
pub open spec fn call_arguments(params: JsonView) -> JsonView {
    match params.member("arguments"@) {
        Some(a) => a,
        None => JsonView::empty_object(),
    }
}

/// The request that is queued for a forwarded tool call.
pub open spec fn call_request(
    tool_name: Seq<char>,
    arguments: JsonView,
    request_id: Seq<char>,
) -> BridgeToolRequestView {
    BridgeToolRequestView { request_id, tool_name, arguments }
}

/// What forwarding decides: without a client the call fails at once,
/// else it awaits the plugin.
pub open spec fn forward_plan(
    m: StateModel,
    id: JsonView,
    tool_name: Seq<char>,
    request_id: Seq<char>,
) -> ToolCallPlanView {
    if m.clients.len() == 0 {
        ToolCallPlanView::Reply(tool_reply(id, MSG_ENQUEUE_FAILED@, true))
    } else {
        ToolCallPlanView::Forwarded(ForwardedCallView { id, tool_name, request_id })
    }
}

/// The state after forwarding: with a client, the reply slot is stored and
/// the request queued; without one, no slot stays behind under the id.
pub open spec fn forward_state(
    m: StateModel,
    tool_name: Seq<char>,
    arguments: JsonView,
    request_id: Seq<char>,
    slot: Sender<BridgeToolResponse>,
) -> StateModel {
    if m.clients.len() == 0 {
        m.register_pending(request_id, slot).resolve(request_id)
    } else {
        m.register_pending(request_id, slot).enqueue(
            call_request(tool_name, arguments, request_id),
        )
    }
}

/// Stores the reply slot under the request id and queues the request for
/// the client that the tool is routed to. Where no client is registered,
/// the slot is removed again and the call fails at once.
pub fn forward_tool_call(
    state: &mut SharedState,
    id: Json,
    tool_name: String,
    arguments: Json,
    request_id: String,
    slot: Sender<BridgeToolResponse>,
) -> (r: ToolCallPlan)
    requires
        old(state)@.wf(),
    ensures
        r@ == forward_plan(old(state)@, id@, tool_name@, request_id@),
        final(state)@ == forward_state(old(state)@, tool_name@, arguments@, request_id@, slot),
        final(state)@.wf(),
{
    let request = BridgeToolRequest {
        request_id: request_id.clone(),
        tool_name: tool_name.clone(),
        arguments,
    };
    state.register_pending(request_id.clone(), slot);
    if !state.enqueue_tool_request(request) {
        let _ = state.take_pending(request_id.as_str());
        return ToolCallPlan::Reply(tool_reply_response(id, MSG_ENQUEUE_FAILED, true));
    }
    ToolCallPlan::Forwarded(ForwardedCall { id, tool_name, request_id })
}

/// What is decided about a `tools/call` with the given parameters, on a
/// state `m`, at time `now`, with `request_id` at hand for forwarding.
pub open spec fn tools_call_plan(
    m: StateModel,
    id: JsonView,
    params: JsonView,
    now: int,
    request_id: Seq<char>,
) -> ToolCallPlanView {
    match params.str_member("name"@) {
        None => ToolCallPlanView::Reply(
            error_response(id, INVALID_PARAMS as int, MSG_MISSING_NAME@),
        ),
        Some(name) => if name == STATUS_TOOL@ {
            ToolCallPlanView::Reply(status_reply(m, id, now))
        } else if disabled_reason(name) is Some {
            ToolCallPlanView::Reply(tool_reply(id, disabled_reason(name)->0, true))
        } else if m.prune(now).clients.len() == 0 {
            ToolCallPlanView::Reply(tool_reply(id, MSG_NO_PLUGIN@, true))
        } else {
            ToolCallPlanView::Forwarded(ForwardedCallView { id, tool_name: name, request_id })
        },
    }
}

/// The state after a `tools/call` was decided.
pub open spec fn tools_call_state(
    m: StateModel,
    params: JsonView,
    now: int,
    request_id: Seq<char>,
    slot: Sender<BridgeToolResponse>,
) -> StateModel {
    match params.str_member("name"@) {
        None => m,
        Some(name) => if name == STATUS_TOOL@ {
            m.prune(now)
        } else if disabled_reason(name) is Some {
            m
        } else if m.prune(now).clients.len() == 0 {
            m.prune(now)
        } else {
            m.prune(now).register_pending(request_id, slot).enqueue(
                call_request(name, call_arguments(params), request_id),
            )
        },
    }
}

/// Decides a `tools/call` at time `now`, with a request id and a reply
/// slot at hand for the case that the call is forwarded.
///
/// A missing or ill-typed `name` is a protocol error. The status tool is
/// answered from the state. An unsupported tool fails at once with its
/// reason. Any other tool needs a client that is not stale: without one
/// the call fails at once; with one the reply slot is stored, the request
/// is queued for the client that the tool is routed to, and the call
/// awaits the plugin.
pub fn plan_tools_call(
    state: &mut SharedState,
    id: Json,
    params: Json,
    now: i64,
    request_id: String,
    slot: Sender<BridgeToolResponse>,
) -> (r: ToolCallPlan)
    requires
        old(state)@.wf(),
    ensures
        r@ == tools_call_plan(old(state)@, id@, params@, now as int, request_id@),
        final(state)@ == tools_call_state(old(state)@, params@, now as int, request_id@, slot),
        final(state)@.wf(),
{
    let tool_name = match params.str_member("name") {
        Some(n) => String::from_str(n),
        None => {
            return ToolCallPlan::Reply(
                JsonRpcResponse::error(id, INVALID_PARAMS, MSG_MISSING_NAME),
            );
        },
    };
    if tool_name.as_str().eq(STATUS_TOOL) {
        return ToolCallPlan::Reply(handle_status_tool_at(state, id, now));
    }
    match disabled_tool_reason(tool_name.as_str()) {
        Some(reason) => {
            return ToolCallPlan::Reply(tool_reply_response(id, reason, true));
        },
        None => {},
    }
    if !state.has_connected_client_at(now) {
        return ToolCallPlan::Reply(tool_reply_response(id, MSG_NO_PLUGIN, true));
    }
    let arguments = match params.into_member("arguments") {
        Some(a) => a,
        None => Json::empty_object(),
    };
    forward_tool_call(state, id, tool_name, arguments, request_id, slot)
}

/// Decides a `tools/call` at the current time, with a fresh request id and
/// a fresh reply slot. Where the call is forwarded, the step carries the
/// receiving half of the slot to await.
pub fn handle_tools_call(state: &mut SharedState, id: Json, params: Json) -> (r: ToolCallStep)
    requires
        old(state)@.wf(),
    ensures
        final(state)@.wf(),
        exists|now: int, request_id: Seq<char>, slot: Sender<BridgeToolResponse>|
            r.plan() == tools_call_plan(old(state)@, id@, params@, now, request_id)
                && final(state)@ == tools_call_state(old(state)@, params@, now, request_id, slot),
{
    let now = now_millis();
    let request_id = new_uuid();
    let (slot, receiver) = reply_channel();
    let ghost rid = request_id@;
    match plan_tools_call(state, id, params, now, request_id, slot) {
        ToolCallPlan::Reply(response) => {
            let r = ToolCallStep::Reply(response);
            proof {
                assert(r.plan() == tools_call_plan(old(state)@, id@, params@, now as int, rid)
                    && state@ == tools_call_state(old(state)@, params@, now as int, rid, slot));
            }
            r
        },
        ToolCallPlan::Forwarded(call) => {
            let r = ToolCallStep::Await(call, receiver);
            proof {
                assert(r.plan() == tools_call_plan(old(state)@, id@, params@, now as int, rid)
                    && state@ == tools_call_state(old(state)@, params@, now as int, rid, slot));
            }
            r
        },
    }
}

/// The text that a successful answer is surfaced as: a string result as it
/// is, any other result as indented JSON, and `ok` without a result.
pub open spec fn answer_text(result: Option<JsonView>) -> Seq<char> {
    match result {
        Some(JsonView::Str(s)) => s,
        Some(other) => pretty_text(other),
        None => "ok"@,
    }
}

/// The message of the timeout of a call of `tool_name`.
pub open spec fn timeout_message(tool_name: Seq<char>) -> Seq<char> {
    "Tool call '"@ + tool_name + "' timed out after 30s. Is the Studio plugin running?"@
}

/// The response that ends a forwarded call, by the way its wait ended.
pub open spec fn outcome_reply(
    call: ForwardedCallView,
    outcome: ToolCallOutcomeView,
) -> JsonRpcResponseView {
    match outcome {
        ToolCallOutcomeView::Answered(response) => if response.success {
            tool_reply(call.id, answer_text(response.result), false)
        } else {
            tool_reply(
                call.id,
                match response.error {
                    Some(e) => e,
                    None => MSG_UNKNOWN_ERROR@,
                },
                true,
            )
        },
        ToolCallOutcomeView::Disconnected => tool_reply(call.id, MSG_DISCONNECTED@, true),
        ToolCallOutcomeView::TimedOut => tool_reply(
            call.id,
            timeout_message(call.tool_name),
            true,
        ),
    }
}

/// Ends a forwarded call once its wait is over and produces the response
/// for the caller. Whatever the outcome, no reply slot stays behind under
/// the request id, so that a late answer finds none.
pub fn finish_tools_call(
    state: &mut SharedState,
    call: ForwardedCall,
    outcome: ToolCallOutcome,
) -> (r: JsonRpcResponse)
    requires
        old(state)@.wf(),
    ensures
        r@ == outcome_reply(call@, outcome@),
        r@.id == call@.id,
        final(state)@ == old(state)@.resolve(call@.request_id),
        final(state)@.wf(),
{
    let _ = state.take_pending(call.request_id.as_str());
    match outcome {
        ToolCallOutcome::Answered(response) => {
            if response.success {
                let text = match &response.result {
                    Some(v) => match v.as_str() {
                        Some(s) => String::from_str(s),
                        None => v.to_pretty_text(),
                    },
                    None => String::from_str("ok"),
                };
                tool_reply_response(call.id, text.as_str(), false)
            } else {
                let text = match response.error {
                    Some(e) => e,
                    None => String::from_str(MSG_UNKNOWN_ERROR),
                };
                tool_reply_response(call.id, text.as_str(), true)
            }
        },
        ToolCallOutcome::Disconnected => tool_reply_response(call.id, MSG_DISCONNECTED, true),
        ToolCallOutcome::TimedOut => {
            let text = concat3(
                "Tool call '",
                call.tool_name.as_str(),
                "' timed out after 30s. Is the Studio plugin running?",
            );
            tool_reply_response(call.id, text.as_str(), true)
        },
    }
}

// ─── Dispatch ─────────────────────────────────────────────────

/// The message of the error for an unknown method.
pub open spec fn method_not_found(method: Seq<char>) -> Seq<char> {
    "Method not found: "@ + method
}

/// What is decided about a request.
pub open spec fn request_plan(
    m: StateModel,
    id: JsonView,
    method: Seq<char>,
    params: JsonView,
    tools: Seq<McpToolDef>,
    now: int,
    request_id: Seq<char>,
) -> ToolCallPlanView {
    if method == "initialize"@ {
        ToolCallPlanView::Reply(success_response(id, initialize_result()))
    } else if method == "ping"@ {
        ToolCallPlanView::Reply(success_response(id, JsonView::empty_object()))
    } else if method == "tools/list"@ {
        ToolCallPlanView::Reply(success_response(id, tools_list_result(tools)))
    } else if method == "tools/call"@ {
        tools_call_plan(m, id, params, now, request_id)
    } else {
        ToolCallPlanView::Reply(
            error_response(id, METHOD_NOT_FOUND as int, method_not_found(method)),
        )
    }
}

/// The state after a request was decided: only `tools/call` changes it.
pub open spec fn request_state(
    m: StateModel,
    method: Seq<char>,
    params: JsonView,
    now: int,
    request_id: Seq<char>,
    slot: Sender<BridgeToolResponse>,
) -> StateModel {
    if method == "tools/call"@ {
        tools_call_state(m, params, now, request_id, slot)
    } else {
        m
    }
}

/// Decides a request at time `now`, with a request id and a reply slot at
/// hand for a tool call that is forwarded.
pub fn plan_request(
    state: &mut SharedState,
    id: Json,
    method: &str,
    params: Json,
    tools: &Vec<McpToolDef>,
    now: i64,
    request_id: String,
    slot: Sender<BridgeToolResponse>,
) -> (r: ToolCallPlan)
    requires
        old(state)@.wf(),
    ensures
        r@ == request_plan(old(state)@, id@, method@, params@, tools@, now as int, request_id@),
        final(state)@ == request_state(
            old(state)@,
            method@,
            params@,
            now as int,
            request_id@,
            slot,
        ),
        final(state)@.wf(),
{
    proof {
        reveal_strlit("initialize");
        reveal_strlit("ping");
        reveal_strlit("tools/list");
        reveal_strlit("tools/call");
        assert("initialize"@[0] != "tools/call"@[0]);
        assert("tools/list"@[6] != "tools/call"@[6]);
    }
    if method.eq("initialize") {
        ToolCallPlan::Reply(handle_initialize(id))
    } else if method.eq("ping") {
        ToolCallPlan::Reply(JsonRpcResponse::success(id, Json::empty_object()))
    } else if method.eq("tools/list") {
        ToolCallPlan::Reply(handle_tools_list(id, tools))
    } else if method.eq("tools/call") {
        plan_tools_call(state, id, params, now, request_id, slot)
    } else {
        let message = crate::text::concat2("Method not found: ", method);
        ToolCallPlan::Reply(JsonRpcResponse::error(id, METHOD_NOT_FOUND, message.as_str()))
    }
}

/// Decides a request at the current time.
pub fn handle_request(
    state: &mut SharedState,
    id: Json,
    method: &str,
    params: Json,
    tools: &Vec<McpToolDef>,
) -> (r: ToolCallStep)
    requires
        old(state)@.wf(),
    ensures
        final(state)@.wf(),
        exists|now: int, request_id: Seq<char>, slot: Sender<BridgeToolResponse>|
            r.plan() == request_plan(old(state)@, id@, method@, params@, tools@, now, request_id)
                && final(state)@ == request_state(
                old(state)@,
                method@,
                params@,
                now,
                request_id,
                slot,
            ),
{
    let now = now_millis();
    let request_id = new_uuid();
    let (slot, receiver) = reply_channel();
    let ghost rid = request_id@;
    match plan_request(state, id, method, params, tools, now, request_id, slot) {
        ToolCallPlan::Reply(response) => {
            let r = ToolCallStep::Reply(response);
            proof {
                assert(r.plan() == request_plan(
                    old(state)@,
                    id@,
                    method@,
                    params@,
                    tools@,
                    now as int,
                    rid,
                ) && state@ == request_state(old(state)@, method@, params@, now as int, rid, slot));
            }
            r
        },
        ToolCallPlan::Forwarded(call) => {
            let r = ToolCallStep::Await(call, receiver);
            proof {
                assert(r.plan() == request_plan(
                    old(state)@,
                    id@,
                    method@,
                    params@,
                    tools@,
                    now as int,
                    rid,
                ) && state@ == request_state(old(state)@, method@, params@, now as int, rid, slot));
            }
            r
        },
    }
}

// ─── Lines ────────────────────────────────────────────────────

/// What is decided about one line of input.
#[derive(Debug, PartialEq)]
pub enum LinePlan {
    /// A blank line: nothing to do.
    Skip,
    /// A notification: nothing to answer.
    Notified(Notification),
    /// A response to write.
    Reply(JsonRpcResponse),
    /// A tool call that now awaits the plugin.
    Forwarded(ForwardedCall),
}

pub enum LinePlanView {
    Skip,
    Notified(Notification),
    Reply(JsonRpcResponseView),
    Forwarded(ForwardedCallView),
}

impl View for LinePlan {
    type V = LinePlanView;

    open spec fn view(&self) -> LinePlanView {
        match *self {
            LinePlan::Skip => LinePlanView::Skip,
            LinePlan::Notified(n) => LinePlanView::Notified(n),
            LinePlan::Reply(r) => LinePlanView::Reply(r@),
            LinePlan::Forwarded(c) => LinePlanView::Forwarded(c@),
        }
    }
}

/// A decision about a line together with the receiving half of the reply
/// slot, where a call was forwarded.
pub enum LineStep {
    Skip,
    Notified(Notification),
    Reply(JsonRpcResponse),
    Await(ForwardedCall, Receiver<BridgeToolResponse>),
}

impl LineStep {
    /// The decision that the step carries.
    pub open spec fn plan(self) -> LinePlanView {
        match self {
            LineStep::Skip => LinePlanView::Skip,
            LineStep::Notified(n) => LinePlanView::Notified(n),
            LineStep::Reply(r) => LinePlanView::Reply(r@),
            LineStep::Await(c, _) => LinePlanView::Forwarded(c@),
        }
    }
}

/// The response to a line that holds no message: a parse error without an
/// id.
pub open spec fn parse_error_reply(detail: Seq<char>) -> JsonRpcResponseView {
    error_response(JsonView::Null, PARSE_ERROR as int, "Parse error: "@ + detail)
}

/// The message on a line, or the reason why it holds none.
pub open spec fn line_message(line: Seq<char>) -> Result<JsonRpcMessageView, Seq<char>> {
    match json_parse(line) {
        Err(e) => Err(e),
        Ok(doc) => crate::types::message_of(doc),
    }
}

/// A decision about a request, as a decision about its line.
pub open spec fn as_line_plan(plan: ToolCallPlanView) -> LinePlanView {
    match plan {
        ToolCallPlanView::Reply(r) => LinePlanView::Reply(r),
        ToolCallPlanView::Forwarded(c) => LinePlanView::Forwarded(c),
    }
}

/// What is decided about one line of input.
pub open spec fn line_plan(
    m: StateModel,
    line: Seq<char>,
    tools: Seq<McpToolDef>,
    now: int,
    request_id: Seq<char>,
) -> LinePlanView {
    let text = crate::text::trimmed(line);
    if text.len() == 0 {
        LinePlanView::Skip
    } else {
        match line_message(text) {
            Err(detail) => LinePlanView::Reply(parse_error_reply(detail)),
            Ok(message) => match message.id {
                None => LinePlanView::Notified(notification_kind(message.method)),
                Some(id) => as_line_plan(
                    request_plan(m, id, message.method, message.params, tools, now, request_id),
                ),
            },
        }
    }
}

/// The state after one line of input was decided: only a request can
/// change it.
pub open spec fn line_state(
    m: StateModel,
    line: Seq<char>,
    now: int,
    request_id: Seq<char>,
    slot: Sender<BridgeToolResponse>,
) -> StateModel {
    let text = crate::text::trimmed(line);
    if text.len() == 0 {
        m
    } else {
        match line_message(text) {
            Err(_) => m,
            Ok(message) => match message.id {
                None => m,
                Some(_) => request_state(
                    m,
                    message.method,
                    message.params,
                    now,
                    request_id,
                    slot,
                ),
            },
        }
    }
}

/// Reads the message on a trimmed line.
pub fn parse_message(text: &str) -> (r: Result<JsonRpcMessage, String>)
    ensures
        crate::types::message_outcome(r) == line_message(text@),
{
    match Json::parse(text) {
        Err(e) => Err(e),
        Ok(doc) => JsonRpcMessage::from_json(&doc),
    }
}

/// Decides one line of input at time `now`, with a request id and a reply
/// slot at hand for a tool call that is forwarded.
///
/// A blank line is skipped. A line that holds no message is answered with
/// a parse error. A message without an id is a notification and is not
/// answered. Any other message is a request.
pub fn plan_line(
    state: &mut SharedState,
    line: &str,
    tools: &Vec<McpToolDef>,
    now: i64,
    request_id: String,
    slot: Sender<BridgeToolResponse>,
) -> (r: LinePlan)
    requires
        old(state)@.wf(),
    ensures
        r@ == line_plan(old(state)@, line@, tools@, now as int, request_id@),
        final(state)@ == line_state(old(state)@, line@, now as int, request_id@, slot),
        final(state)@.wf(),
{
    let text = crate::text::trim(line);
    if text.is_empty() {
        return LinePlan::Skip;
    }
    let message = match parse_message(text) {
        Ok(m) => m,
        Err(detail) => {
            let text = crate::text::concat2("Parse error: ", detail.as_str());
            return LinePlan::Reply(JsonRpcResponse::error(Json::Null, PARSE_ERROR, text.as_str()));
        },
    };
    let id = match message.id {
        Some(id) => id,
        None => {
            return LinePlan::Notified(handle_notification(message.method.as_str()));
        },
    };
    match plan_request(
        state,
        id,
        message.method.as_str(),
        message.params,
        tools,
        now,
        request_id,
        slot,
    ) {
        ToolCallPlan::Reply(response) => LinePlan::Reply(response),
        ToolCallPlan::Forwarded(call) => LinePlan::Forwarded(call),
    }
}

/// Decides one line of input at the current time.
pub fn handle_line(state: &mut SharedState, line: &str, tools: &Vec<McpToolDef>) -> (r: LineStep)
    requires
        old(state)@.wf(),
    ensures
        final(state)@.wf(),
        exists|now: int, request_id: Seq<char>, slot: Sender<BridgeToolResponse>|
            r.plan() == line_plan(old(state)@, line@, tools@, now, request_id) && final(state)@
                == line_state(old(state)@, line@, now, request_id, slot),
{
    let now = now_millis();
    let request_id = new_uuid();
    let (slot, receiver) = reply_channel();
    let ghost rid = request_id@;
    let plan = plan_line(state, line, tools, now, request_id, slot);
    let r = match plan {
        LinePlan::Skip => LineStep::Skip,
        LinePlan::Notified(n) => LineStep::Notified(n),
        LinePlan::Reply(response) => LineStep::Reply(response),
        LinePlan::Forwarded(call) => LineStep::Await(call, receiver),
    };
    proof {
        assert(r.plan() == line_plan(old(state)@, line@, tools@, now as int, rid) && state@
            == line_state(old(state)@, line@, now as int, rid, slot));
    }
    r
}

} // verus!
