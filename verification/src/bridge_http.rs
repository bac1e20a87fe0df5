//! The HTTP side: what each route of the polling bridge decides.
//!
//! The embedding program owns the listener. It hands each request's parts
//! to the function of its route and turns the result into a response.

use crate::config::Config;
use crate::json::JsonView;
use crate::model::StateModel;
use crate::outside::{new_uuid, now_millis};
use crate::state::SharedState;
use crate::text::{concat2, opt_str_text, opt_text, owned_opt};
use crate::types::{
    BridgeEvent, BridgeEventView, BridgePushPayload, BridgeRegisterRequest,
    BridgeRegisterResponse, BridgeStatusResponse, BridgeToolRequest, BridgeToolResponse,
};
use std::sync::Arc;
use tokio::sync::Notify;
use vstd::prelude::*;
use vstd::string::*;

verus! {

/// How long a pull waits for a request before it returns empty, in
/// seconds.
pub const PULL_TIMEOUT_SECS: u64 = 25;

/// HTTP status: the bearer token is missing or wrong.
pub const UNAUTHORIZED: u16 = 401;

/// HTTP status: the client is not registered.
pub const NOT_FOUND: u16 = 404;

pub const MSG_UNAUTHORIZED: &'static str = "Invalid or missing Authorization header";

pub const MSG_UNKNOWN_CLIENT: &'static str = "Unknown clientId";

/// The version that a plugin is registered under where it names none.
pub const UNKNOWN_VERSION: &'static str = "unknown";

// ─── Auth ─────────────────────────────────────────────────────

/// Whether a request may pass: always without a configured token, else
/// only with the header `Bearer <token>`. A missing header counts as an
/// empty one.
pub open spec fn authorized(authorization: Option<Seq<char>>, token: Option<Seq<char>>) -> bool {
    match token {
        None => true,
        Some(t) => {
            let given = match authorization {
                Some(a) => a,
                None => Seq::empty(),
            };
            given == "Bearer "@ + t
        },
    }
}

/// Whether an error is the rejection of an unauthorized request.
pub open spec fn is_unauthorized(e: (u16, String)) -> bool {
    e.0 == UNAUTHORIZED && e.1@ == MSG_UNAUTHORIZED@
}

/// Checks the `Authorization` header against the configured token.
pub fn check_auth(authorization: Option<&str>, config: &Config) -> (r: Result<(), (u16, String)>)
    ensures
        r is Ok == authorized(opt_str_text(authorization), opt_text(config.token)),
        r matches Err(e) ==> is_unauthorized(e),
{
    let token = match &config.token {
        Some(t) => t,
        None => {
            return Ok(());
        },
    };
    let given = match authorization {
        Some(a) => a,
        None => "",
    };
    proof {
        reveal_strlit("");
        assert(""@ =~= Seq::<char>::empty());
    }
    let expected = concat2("Bearer ", token.as_str());
    if !given.eq(expected.as_str()) {
        return Err((UNAUTHORIZED, String::from_str(MSG_UNAUTHORIZED)));
    }
    Ok(())
}

// ─── POST /register ───────────────────────────────────────────

/// The version that a plugin is registered under: the one it names, or
/// `unknown` where it names none.
pub open spec fn registered_version(plugin_version: Seq<char>) -> Seq<char> {
    if plugin_version.len() == 0 {
        UNKNOWN_VERSION@
    } else {
        plugin_version
    }
}

/// Registers a plugin under the given client id at time `now`.
pub fn handle_register_at(
    state: &mut SharedState,
    authorization: Option<&str>,
    config: &Config,
    body: BridgeRegisterRequest,
    client_id: String,
    now: i64,
) -> (r: Result<BridgeRegisterResponse, (u16, String)>)
    requires
        old(state)@.wf(),
    ensures
        final(state)@.wf(),
        r is Ok == authorized(opt_str_text(authorization), opt_text(config.token)),
        match r {
            Ok(answer) => {
                &&& answer.client_id@ == client_id@
                &&& answer.server_version@ == crate::mcp_stdio::SERVER_VERSION@
                &&& final(state)@.has_client(client_id@)
                &&& final(state)@ == old(state)@.register_client(
                    client_id@,
                    registered_version(body.plugin_version@),
                    final(state)@.client(client_id@).wake,
                    now as int,
                )
            },
            Err(e) => is_unauthorized(e) && final(state)@ == old(state)@,
        },
{
    match check_auth(authorization, config) {
        Err(e) => {
            return Err(e);
        },
        Ok(_) => {},
    }
    let version = if body.plugin_version.as_str().is_empty() {
        String::from_str(UNKNOWN_VERSION)
    } else {
        body.plugin_version
    };
    state.register_client_at(client_id.clone(), version, now);
    Ok(
        BridgeRegisterResponse {
            client_id,
            server_version: String::from_str(crate::mcp_stdio::SERVER_VERSION),
        },
    )
}

/// Registers a plugin under a fresh client id at the current time.
pub fn handle_register(
    state: &mut SharedState,
    authorization: Option<&str>,
    config: &Config,
    body: BridgeRegisterRequest,
) -> (r: Result<BridgeRegisterResponse, (u16, String)>)
    requires
        old(state)@.wf(),
    ensures
        final(state)@.wf(),
        r is Ok == authorized(opt_str_text(authorization), opt_text(config.token)),
        match r {
            Ok(answer) => {
                &&& answer.server_version@ == crate::mcp_stdio::SERVER_VERSION@
                &&& final(state)@.has_client(answer.client_id@)
                &&& exists|now: int|
                    final(state)@ == old(state)@.register_client(
                        answer.client_id@,
                        registered_version(body.plugin_version@),
                        final(state)@.client(answer.client_id@).wake,
                        now,
                    )
            },
            Err(e) => is_unauthorized(e) && final(state)@ == old(state)@,
        },
{
    let now = now_millis();
    let client_id = new_uuid();
    handle_register_at(state, authorization, config, body, client_id, now)
}

// ─── GET /pull?clientId=... ───────────────────────────────────

/// What a pull does first: answer at once, or wait on the client's
/// wakeup.
pub enum PullStep {
    /// Requests were queued: they are the answer.
    Ready(Vec<BridgeToolRequest>),
    /// Nothing was queued: wait on the wakeup, up to the pull timeout.
    Wait(Arc<Notify>),
}

/// Whether `r` is what a pull by `client_id` at time `now` gives on the
/// state `m`, and `after` the state it leaves.
///
/// An unauthorized request is rejected and changes nothing. Otherwise the
/// queue is taken and the pull recorded. Queued requests are the answer.
/// With nothing queued, a known client waits on its own wakeup and an
/// unknown client is told so.
pub open spec fn pull_started(
    m: StateModel,
    after: StateModel,
    authorization: Option<Seq<char>>,
    token: Option<Seq<char>>,
    client_id: Seq<char>,
    now: int,
    r: Result<PullStep, (u16, String)>,
) -> bool {
    if !authorized(authorization, token) {
        &&& after == m
        &&& r matches Err(e) && is_unauthorized(e)
    } else {
        &&& after == m.drain(client_id, now)
        &&& match r {
            Ok(PullStep::Ready(requests)) => {
                &&& requests.len() > 0
                &&& requests@.map_values(|q: BridgeToolRequest| q@) == m.outbound(client_id)
            },
            Ok(PullStep::Wait(wake)) => {
                &&& m.outbound(client_id).len() == 0
                &&& m.has_client(client_id)
                &&& wake == m.client(client_id).wake
            },
            Err(e) => {
                &&& m.outbound(client_id).len() == 0
                &&& !m.has_client(client_id)
                &&& e.0 == NOT_FOUND
                &&& e.1@ == MSG_UNKNOWN_CLIENT@
            },
        }
    }
}

/// Starts a pull at time `now`.
pub fn handle_pull_at(
    state: &mut SharedState,
    authorization: Option<&str>,
    config: &Config,
    client_id: &str,
    now: i64,
) -> (r: Result<PullStep, (u16, String)>)
    requires
        old(state)@.wf(),
    ensures
        final(state)@.wf(),
        pull_started(
            old(state)@,
            final(state)@,
            opt_str_text(authorization),
            opt_text(config.token),
            client_id@,
            now as int,
            r,
        ),
{
    match check_auth(authorization, config) {
        Err(e) => {
            return Err(e);
        },
        Ok(_) => {},
    }
    let requests = state.drain_outbound_at(client_id, now);
    if requests.len() > 0 {
        return Ok(PullStep::Ready(requests));
    }
    proof {
        crate::model::lemma_drain_keeps_clients(old(state)@, client_id@, now as int);
    }
    match state.get_notify(client_id) {
        Some(wake) => Ok(PullStep::Wait(wake)),
        None => Err((NOT_FOUND, String::from_str(MSG_UNKNOWN_CLIENT))),
    }
}

/// Starts a pull at the current time.
pub fn handle_pull(
    state: &mut SharedState,
    authorization: Option<&str>,
    config: &Config,
    client_id: &str,
) -> (r: Result<PullStep, (u16, String)>)
    requires
        old(state)@.wf(),
    ensures
        final(state)@.wf(),
        exists|now: int|
            pull_started(
                old(state)@,
                final(state)@,
                opt_str_text(authorization),
                opt_text(config.token),
                client_id@,
                now,
                r,
            ),
{
    let now = now_millis();
    let r = handle_pull_at(state, authorization, config, client_id, now);
    proof {
        assert(pull_started(
            old(state)@,
            state@,
            opt_str_text(authorization),
            opt_text(config.token),
            client_id@,
            now as int,
            r,
        ));
    }
    r
}

/// Ends a pull that waited, at time `now`: after a wakeup the queue is
/// taken, after the timeout the answer is empty and nothing changes.
pub fn finish_pull_at(state: &mut SharedState, client_id: &str, woken: bool, now: i64) -> (r: Vec<
    BridgeToolRequest,
>)
    requires
        old(state)@.wf(),
    ensures
        final(state)@.wf(),
        final(state)@ == if woken {
            old(state)@.drain(client_id@, now as int)
        } else {
            old(state)@
        },
        r@.map_values(|q: BridgeToolRequest| q@) == if woken {
            old(state)@.outbound(client_id@)
        } else {
            Seq::empty()
        },
{
    if woken {
        state.drain_outbound_at(client_id, now)
    } else {
        let r: Vec<BridgeToolRequest> = Vec::new();
        proof {
            assert(r@.map_values(|q: BridgeToolRequest| q@) =~= Seq::empty());
        }
        r
    }
}

/// Ends a pull that waited, at the current time.
pub fn finish_pull(state: &mut SharedState, client_id: &str, woken: bool) -> (r: Vec<
    BridgeToolRequest,
>)
    requires
        old(state)@.wf(),
    ensures
        final(state)@.wf(),
        woken ==> exists|now: int| final(state)@ == old(state)@.drain(client_id@, now),
        !woken ==> final(state)@ == old(state)@,
        r@.map_values(|q: BridgeToolRequest| q@) == if woken {
            old(state)@.outbound(client_id@)
        } else {
            Seq::empty()
        },
{
    let now = now_millis();
    finish_pull_at(state, client_id, woken, now)
}

// ─── Events ───────────────────────────────────────────────────

/// The kinds of event that a plugin emits.
#[derive(Debug, Clone, Copy, PartialEq, Eq)]
pub enum EventKind {
    Log,
    PlaytestState,
    Capture,
    Unknown,
}

/// The kind of an event by its type.
pub open spec fn event_kind(event_type: Seq<char>) -> EventKind {
    if event_type == "studio.log"@ {
        EventKind::Log
    } else if event_type == "studio.playtest_state"@ {
        EventKind::PlaytestState
    } else if event_type == "studio.capture"@ {
        EventKind::Capture
    } else {
        EventKind::Unknown
    }
}

/// The level of a log event: `output` where the data names none.
pub open spec fn log_level(data: JsonView) -> Seq<char> {
    match data.str_member("level"@) {
        Some(s) => s,
        None => "output"@,
    }
}

/// The message of a log event: empty where the data holds none.
pub open spec fn log_message(data: JsonView) -> Seq<char> {
    match data.str_member("message"@) {
        Some(s) => s,
        None => Seq::empty(),
    }
}

/// Whether a playtest event reports a running playtest: `false` where the
/// data does not say.
pub open spec fn playtest_active(data: JsonView) -> bool {
    match data.bool_member("active"@) {
        Some(b) => b,
        None => false,
    }
}

/// The state after an event that arrived at `now`: a log event appends a
/// log entry, a playtest event replaces the snapshot, any other event
/// changes nothing.
pub open spec fn apply_event(m: StateModel, event: BridgeEventView, now: int) -> StateModel {
    match event_kind(event.event_type) {
        EventKind::Log => m.push_log(
            log_level(event.data),
            log_message(event.data),
            event.data.str_member("sessionId"@),
            now,
        ),
        EventKind::PlaytestState => m.update_playtest(
            playtest_active(event.data),
            event.data.str_member("sessionId"@),
            event.data.str_member("mode"@),
        ),
        _ => m,
    }
}

/// Applies an event that arrived at `now` to the state and tells its
/// kind. Fields that are missing or of the wrong type fall back to their
/// defaults.
pub fn handle_event_at(state: &mut SharedState, event: &BridgeEvent, now: i64) -> (r: EventKind)
    requires
        old(state)@.wf(),
        old(state)@.log_seq < u64::MAX,
    ensures
        r == event_kind(event@.event_type),
        final(state)@ == apply_event(old(state)@, event@, now as int),
        final(state)@.wf(),
{
    proof {
        reveal_strlit("");
        assert(""@ =~= Seq::<char>::empty());
    }
    let kind = event.event_type.as_str();
    if kind.eq("studio.log") {
        let level = match event.data.str_member("level") {
            Some(s) => s,
            None => "output",
        };
        let message = match event.data.str_member("message") {
            Some(s) => s,
            None => "",
        };
        let session_id = owned_opt(event.data.str_member("sessionId"));
        state.push_log_at(String::from_str(level), String::from_str(message), session_id, now);
        EventKind::Log
    } else if kind.eq("studio.playtest_state") {
        let active = match event.data.bool_member("active") {
            Some(b) => b,
            None => false,
        };
        let session_id = owned_opt(event.data.str_member("sessionId"));
        let mode = owned_opt(event.data.str_member("mode"));
        state.update_playtest(active, session_id, mode);
        EventKind::PlaytestState
    } else if kind.eq("studio.capture") {
        EventKind::Capture
    } else {
        EventKind::Unknown
    }
}

/// Applies an event that arrives now.
pub fn handle_event(state: &mut SharedState, event: &BridgeEvent) -> (r: EventKind)
    requires
        old(state)@.wf(),
        old(state)@.log_seq < u64::MAX,
    ensures
        r == event_kind(event@.event_type),
        exists|now: int| final(state)@ == apply_event(old(state)@, event@, now),
        final(state)@.wf(),
{
    let now = now_millis();
    handle_event_at(state, event, now)
}

// ─── POST /push?clientId=... ──────────────────────────────────

/// The state after the reply slots of the given requests were resolved,
/// one after the other.
pub open spec fn resolve_all(m: StateModel, ids: Seq<Seq<char>>) -> StateModel
    decreases ids.len(),
{
    if ids.len() == 0 {
        m
    } else {
        resolve_all(m, ids.drop_last()).resolve(ids.last())
    }
}

/// The ids among `ids` that found no reply slot when their turn came.
pub open spec fn unmatched_ids(m: StateModel, ids: Seq<Seq<char>>) -> Seq<Seq<char>>
    decreases ids.len(),
{
    if ids.len() == 0 {
        Seq::empty()
    } else {
        let before = unmatched_ids(m, ids.drop_last());
        if resolve_all(m, ids.drop_last()).has_pending(ids.last()) {
            before
        } else {
            before.push(ids.last())
        }
    }
}

/// The state after the given events, all arrived at `now`, were applied
/// one after the other.
pub open spec fn apply_events(m: StateModel, events: Seq<BridgeEventView>, now: int) -> StateModel
    decreases events.len(),
{
    if events.len() == 0 {
        m
    } else {
        apply_event(apply_events(m, events.drop_last(), now), events.last(), now)
    }
}

/// The request ids of a sequence of responses.
pub open spec fn response_ids(responses: Seq<BridgeToolResponse>) -> Seq<Seq<char>> {
    responses.map_values(|r: BridgeToolResponse| r.request_id@)
}

/// The values of a sequence of events.
pub open spec fn event_views(events: Seq<BridgeEvent>) -> Seq<BridgeEventView> {
    events.map_values(|e: BridgeEvent| e@)
}

/// The state after a push: first every response is resolved, then every
/// event is applied.
pub open spec fn push_state(m: StateModel, body: BridgePushPayload, now: int) -> StateModel {
    apply_events(
        resolve_all(m, response_ids(body.responses@)),
        event_views(body.events@),
        now,
    )
}

/// What a push did besides changing the state.
#[derive(Debug, Clone, PartialEq, Eq)]
pub struct PushReport {
    /// The request ids of the responses that found no pending call.
    pub unmatched: Vec<String>,
}

/// The characters of each string.
pub open spec fn texts(strings: Seq<String>) -> Seq<Seq<char>> {
    strings.map_values(|s: String| s@)
}

/// Events never touch the pending table, the clients or the counter's
/// bound beyond one step each.
proof fn lemma_apply_event(m: StateModel, event: BridgeEventView, now: int)
    requires
        m.wf(),
        m.log_seq < u64::MAX,
    ensures
        apply_event(m, event, now).wf(),
        apply_event(m, event, now).log_seq <= m.log_seq + 1,
{
    crate::model::lemma_push_log_wf(
        m,
        log_level(event.data),
        log_message(event.data),
        event.data.str_member("sessionId"@),
        now,
    );
}

/// Resolving pending calls keeps the invariant and the counter.
proof fn lemma_resolve_all(m: StateModel, ids: Seq<Seq<char>>)
    requires
        m.wf(),
    ensures
        resolve_all(m, ids).wf(),
        resolve_all(m, ids).log_seq == m.log_seq,
    decreases ids.len(),
{
    if ids.len() > 0 {
        lemma_resolve_all(m, ids.drop_last());
        crate::model::lemma_resolve_wf(resolve_all(m, ids.drop_last()), ids.last());
    }
}

/// Takes a push at time `now`: resolves the pending call of every
/// response, then applies every event. A response without a pending call
/// changes nothing and is reported.
pub fn handle_push_at(
    state: &mut SharedState,
    authorization: Option<&str>,
    config: &Config,
    client_id: &str,
    body: BridgePushPayload,
    now: i64,
) -> (r: Result<PushReport, (u16, String)>)
    requires
        old(state)@.wf(),
        old(state)@.log_seq + body.events.len() <= u64::MAX,
    ensures
        final(state)@.wf(),
        r is Ok == authorized(opt_str_text(authorization), opt_text(config.token)),
        match r {
            Ok(report) => {
                &&& final(state)@ == push_state(old(state)@, body, now as int)
                &&& texts(report.unmatched@) == unmatched_ids(
                    old(state)@,
                    response_ids(body.responses@),
                )
            },
            Err(e) => is_unauthorized(e) && final(state)@ == old(state)@,
        },
{
    match check_auth(authorization, config) {
        Err(e) => {
            return Err(e);
        },
        Ok(_) => {},
    }
    let ghost start = state@;
    let ghost ids = response_ids(body.responses@);
    let ghost all_responses = body.responses@;
    let ghost all_events = body.events@;
    let events = body.events;
    let mut unmatched: Vec<String> = Vec::new();
    for response in it: body.responses
        invariant
            it.seq() == all_responses,
            ids == response_ids(all_responses),
            state@.wf(),
            state@ == resolve_all(start, ids.subrange(0, it.index() as int)),
            texts(unmatched@) == unmatched_ids(start, ids.subrange(0, it.index() as int)),
    {
        let ghost k = it.index() as int;
        proof {
            assert(ids.subrange(0, k + 1).drop_last() =~= ids.subrange(0, k));
            assert(ids[k] == response.request_id@);
        }
        let request_id = response.request_id.clone();
        let resolved = state.resolve_pending(request_id.as_str(), response);
        if !resolved {
            proof {
                assert(texts(unmatched@.push(request_id)) =~= texts(unmatched@).push(request_id@));
            }
            unmatched.push(request_id);
        }
    }
    proof {
        assert(ids.subrange(0, ids.len() as int) =~= ids);
        lemma_resolve_all(start, ids);
    }
    let ghost resolved_state = state@;
    let ghost views = event_views(all_events);
    let mut i: usize = 0;
    while i < events.len()
        invariant
            i <= events.len(),
            events@ == all_events,
            views == event_views(all_events),
            state@.wf(),
            state@.log_seq + (events.len() - i) <= u64::MAX,
            state@ == apply_events(resolved_state, views.subrange(0, i as int), now as int),
        decreases events.len() - i,
    {
        proof {
            assert(views.subrange(0, i as int + 1).drop_last() =~= views.subrange(0, i as int));
            assert(views[i as int] == events[i as int]@);
            lemma_apply_event(state@, events[i as int]@, now as int);
        }
        let _ = handle_event_at(state, &events[i], now);
        i = i + 1;
    }
    proof {
        assert(views.subrange(0, i as int) =~= views);
    }
    Ok(PushReport { unmatched })
}

/// Takes a push at the current time.
pub fn handle_push(
    state: &mut SharedState,
    authorization: Option<&str>,
    config: &Config,
    client_id: &str,
    body: BridgePushPayload,
) -> (r: Result<PushReport, (u16, String)>)
    requires
        old(state)@.wf(),
        old(state)@.log_seq + body.events.len() <= u64::MAX,
    ensures
        final(state)@.wf(),
        r is Ok == authorized(opt_str_text(authorization), opt_text(config.token)),
        match r {
            Ok(report) => {
                &&& exists|now: int| final(state)@ == push_state(old(state)@, body, now)
                &&& texts(report.unmatched@) == unmatched_ids(
                    old(state)@,
                    response_ids(body.responses@),
                )
            },
            Err(e) => is_unauthorized(e) && final(state)@ == old(state)@,
        },
{
    let now = now_millis();
    handle_push_at(state, authorization, config, client_id, body, now)
}

// ─── GET /health ──────────────────────────────────────────────

/// The body of the health check.
pub fn handle_health() -> (r: &'static str)
    ensures
        r@ == "ok"@,
{
    "ok"
}

// ─── GET /status ──────────────────────────────────────────────

/// The status of a state that was pruned at `now`.
pub open spec fn status_of(m: StateModel, now: int) -> BridgeStatusResponse {
    BridgeStatusResponse {
        connected_clients: m.prune(now).clients.len() as usize,
        pending_calls: m.pending.len() as usize,
        log_buffer_size: m.logs.len() as usize,
        playtest_active: m.playtest.active,
    }
}

/// Reports the status at time `now`, after pruning the stale clients.
pub fn handle_status_at(
    state: &mut SharedState,
    authorization: Option<&str>,
    config: &Config,
    now: i64,
) -> (r: Result<BridgeStatusResponse, (u16, String)>)
    requires
        old(state)@.wf(),
    ensures
        final(state)@.wf(),
        r is Ok == authorized(opt_str_text(authorization), opt_text(config.token)),
        match r {
            Ok(status) => status == status_of(old(state)@, now as int) && final(state)@ == old(
                state,
            )@.prune(now as int),
            Err(e) => is_unauthorized(e) && final(state)@ == old(state)@,
        },
{
    match check_auth(authorization, config) {
        Err(e) => {
            return Err(e);
        },
        Ok(_) => {},
    }
    let connected_clients = state.connected_client_count_at(now);
    Ok(
        BridgeStatusResponse {
            connected_clients,
            pending_calls: state.pending_call_count(),
            log_buffer_size: state.log_buffer_size(),
            playtest_active: state.is_playtest_active(),
        },
    )
}

/// Reports the status at the current time.
pub fn handle_status(
    state: &mut SharedState,
    authorization: Option<&str>,
    config: &Config,
) -> (r: Result<BridgeStatusResponse, (u16, String)>)
    requires
        old(state)@.wf(),
    ensures
        final(state)@.wf(),
        r is Ok == authorized(opt_str_text(authorization), opt_text(config.token)),
        match r {
            Ok(status) => exists|now: int|
                status == status_of(old(state)@, now) && final(state)@ == old(state)@.prune(now),
            Err(e) => is_unauthorized(e) && final(state)@ == old(state)@,
        },
{
    let now = now_millis();
    handle_status_at(state, authorization, config, now)
}

} // verus!
