//! What holds of the bridge as a whole, proved from the model.

use crate::bridge_http::{resolve_all, unmatched_ids};
use crate::json::JsonView;
use crate::mcp_stdio::{
    call_arguments, call_request, disabled_reason, outcome_reply, tool_reply, tools_call_plan,
    tools_call_state, answer_text, ForwardedCallView, ToolCallOutcomeView, ToolCallPlanView,
    MSG_NO_PLUGIN, STATUS_TOOL,
};
use crate::model::{
    lemma_first_of_kind, lemma_fresh_clients, lemma_latest_poller, lemma_position,
    lemma_resolve_wf, position, StateModel, MAX_LOG_BUFFER, STALE_AFTER_MS,
};
use crate::model::{lemma_prune_wf, lemma_push_log_wf};
use crate::types::{BridgeToolRequestView, BridgeToolResponse, BridgeToolResponseView};
use std::sync::Arc;
use tokio::sync::oneshot::Sender;
use tokio::sync::Notify;
use vstd::prelude::*;

verus! {

/// The invariant of the state survives every operation: client ids and
/// request ids stay unique, the log ring stays within its bound, and the
/// sequence numbers keep rising.
pub proof fn law_invariant_is_kept(
    m: StateModel,
    id: Seq<char>,
    version: Seq<char>,
    wake: Arc<Notify>,
    now: int,
    request: BridgeToolRequestView,
    slot: Sender<BridgeToolResponse>,
    level: Seq<char>,
    message: Seq<char>,
    session_id: Option<Seq<char>>,
    active: bool,
    mode: Option<Seq<char>>,
)
    requires
        m.wf(),
    ensures
        StateModel::initial(m.capture_dir).wf(),
        m.register_client(id, version, wake, now).wf(),
        m.remove_client(id).wf(),
        m.prune(now).wf(),
        m.enqueue(request).wf(),
        m.drain(id, now).wf(),
        m.register_pending(id, slot).wf(),
        m.resolve(id).wf(),
        m.log_seq < u64::MAX ==> m.push_log(level, message, session_id, now).wf(),
        m.update_playtest(active, session_id, mode).wf(),
{
    let start = StateModel::initial(m.capture_dir);
    assert(start.client_ids() =~= Seq::empty());
    assert(start.pending_ids() =~= Seq::empty());
    let ids = m.client_ids();
    lemma_position(ids, id);
    match position(ids, id) {
        Some(i) => {
            assert(m.register_client(id, version, wake, now).client_ids() =~= ids);
            assert(m.remove_client(id).client_ids() =~= ids.remove(i));
            assert(m.drain(id, now).client_ids() =~= ids);
        },
        None => {
            assert(m.register_client(id, version, wake, now).client_ids() =~= ids.push(id));
        },
    }
    lemma_prune_wf(m, now);
    if m.clients.len() > 0 {
        lemma_first_of_kind(m.clients, crate::model::prefers_bridge(request.tool_name));
        lemma_latest_poller(m.clients);
        assert(m.enqueue(request).client_ids() =~= ids);
    }
    let waiting = m.pending_ids();
    lemma_position(waiting, id);
    match position(waiting, id) {
        Some(i) => {
            assert(m.register_pending(id, slot).pending_ids() =~= waiting);
        },
        None => {
            assert(m.register_pending(id, slot).pending_ids() =~= waiting.push(id));
        },
    }
    lemma_resolve_wf(m, id);
    if m.log_seq < u64::MAX {
        lemma_push_log_wf(m, level, message, session_id, now);
    }
}

/// Every decision about a tool call carries the id of its request: an
/// immediate response has it, and so has the response that ends a
/// forwarded call, however its wait ends.
pub proof fn law_tool_call_answers_under_its_id(
    m: StateModel,
    id: JsonView,
    params: JsonView,
    now: int,
    request_id: Seq<char>,
    outcome: ToolCallOutcomeView,
)
    ensures
        match tools_call_plan(m, id, params, now, request_id) {
            ToolCallPlanView::Reply(response) => response.id == id,
            ToolCallPlanView::Forwarded(call) => call.id == id && outcome_reply(call, outcome).id
                == id,
        },
{
}

/// A new log entry gets a sequence number above that of every entry in the
/// ring, and the numbers in the ring rise strictly.
pub proof fn law_log_sequence_rises(
    m: StateModel,
    level: Seq<char>,
    message: Seq<char>,
    session_id: Option<Seq<char>>,
    ts: int,
)
    requires
        m.wf(),
        m.log_seq < u64::MAX,
    ensures
        ({
            let after = m.push_log(level, message, session_id, ts);
            &&& after.logs.len() > 0
            &&& after.logs.last().seq == m.log_seq + 1
            &&& forall|i: int| 0 <= i < m.logs.len() ==> m.logs[i].seq < after.logs.last().seq
            &&& forall|i: int, j: int|
                0 <= i < j < after.logs.len() ==> after.logs[i].seq < after.logs[j].seq
        }),
{
}

/// The log ring never holds more than its bound, whatever is appended.
pub proof fn law_log_ring_is_bounded(
    m: StateModel,
    level: Seq<char>,
    message: Seq<char>,
    session_id: Option<Seq<char>>,
    ts: int,
)
    requires
        m.wf(),
    ensures
        m.logs.len() <= MAX_LOG_BUFFER,
        m.push_log(level, message, session_id, ts).logs.len() <= MAX_LOG_BUFFER,
{
}

/// After pruning, no client is left that was stale, every other client is
/// still there, and the id of a stale client is registered no more.
pub proof fn law_prune_removes_the_stale(m: StateModel, now: int)
    requires
        m.wf(),
    ensures
        forall|i: int|
            0 <= i < m.prune(now).clients.len() ==> !(#[trigger] m.prune(now).clients[i]).is_stale(
                now,
            ),
        forall|j: int|
            0 <= j < m.clients.len() && !(#[trigger] m.clients[j]).is_stale(now) ==> m.prune(
                now,
            ).clients.contains(m.clients[j]),
        forall|j: int|
            0 <= j < m.clients.len() && (#[trigger] m.clients[j]).is_stale(now) ==> !m.prune(
                now,
            ).has_client(m.clients[j].id),
{
    lemma_fresh_clients(m.clients, now);
    let kept = m.prune(now).clients;
    let kept_ids = m.prune(now).client_ids();
    let ids = m.client_ids();
    assert forall|j: int| 0 <= j < m.clients.len() && (#[trigger] m.clients[j]).is_stale(
        now,
    ) implies !m.prune(now).has_client(m.clients[j].id) by {
        let id = m.clients[j].id;
        lemma_position(kept_ids, id);
        if position(kept_ids, id) is Some {
            let i = position(kept_ids, id)->0;
            assert(kept_ids[i] == kept[i].id);
            assert(m.clients.contains(kept[i]));
            let w = choose|w: int| 0 <= w < m.clients.len() && m.clients[w] == kept[i];
            assert(ids[w] == id);
            assert(ids[j] == id);
            assert(w == j);
        }
    }
}

/// The routing policy: with any client registered, a request goes to a
/// client of the kind that its tool prefers whenever there is one, and
/// else to a client that no other client has polled after.
pub proof fn law_routing_policy(m: StateModel, tool_name: Seq<char>)
    requires
        m.clients.len() > 0,
    ensures
        m.route(tool_name) is Some,
        ({
            let target = m.route(tool_name)->0;
            let bridge = crate::model::prefers_bridge(tool_name);
            &&& 0 <= target < m.clients.len()
            &&& (exists|j: int|
                0 <= j < m.clients.len() && (#[trigger] m.clients[j]).is_playtest_bridge()
                    == bridge) ==> m.clients[target].is_playtest_bridge() == bridge
            &&& (forall|j: int|
                0 <= j < m.clients.len() ==> (#[trigger] m.clients[j]).is_playtest_bridge()
                    != bridge) ==> forall|j: int|
                0 <= j < m.clients.len() ==> (#[trigger] m.clients[j]).last_poll
                    <= m.clients[target].last_poll
        }),
{
    lemma_first_of_kind(m.clients, crate::model::prefers_bridge(tool_name));
    lemma_latest_poller(m.clients);
}

/// One plugin, one call, one answer: after a client has registered with no
/// other client present, a tool call that needs a plugin is forwarded to
/// it; the client's next pull returns exactly that request; its push under
/// the request's id finds the pending call; and the call then ends with
/// the payload of the answer.
pub proof fn law_round_trip(
    m: StateModel,
    client_id: Seq<char>,
    version: Seq<char>,
    wake: Arc<Notify>,
    registered: int,
    id: JsonView,
    params: JsonView,
    now: int,
    request_id: Seq<char>,
    slot: Sender<BridgeToolResponse>,
    pulled: int,
    answer: BridgeToolResponseView,
)
    requires
        m.wf(),
        m.clients.len() == 0,
        !m.has_pending(request_id),
        now - registered <= STALE_AFTER_MS,
        params.str_member("name"@) is Some,
        params.str_member("name"@)->0 != STATUS_TOOL@,
        disabled_reason(params.str_member("name"@)->0) is None,
        answer.success,
    ensures
        ({
            let name = params.str_member("name"@)->0;
            let waiting = m.register_client(client_id, version, wake, registered);
            let plan = tools_call_plan(waiting, id, params, now, request_id);
            let queued = tools_call_state(waiting, params, now, request_id, slot);
            let taken = queued.drain(client_id, pulled);
            &&& plan == ToolCallPlanView::Forwarded(
                ForwardedCallView { id, tool_name: name, request_id },
            )
            &&& queued.outbound(client_id) == seq![
                call_request(name, call_arguments(params), request_id),
            ]
            &&& taken.outbound(client_id).len() == 0
            &&& taken.has_pending(request_id)
            &&& unmatched_ids(taken, seq![request_id]).len() == 0
            &&& !resolve_all(taken, seq![request_id]).has_pending(request_id)
            &&& outcome_reply(plan->Forwarded_0, ToolCallOutcomeView::Answered(answer))
                == tool_reply(id, answer_text(answer.result), false)
        }),
{
    let name = params.str_member("name"@)->0;
    let waiting = m.register_client(client_id, version, wake, registered);
    assert(m.client_ids() =~= Seq::empty());
    let fresh = waiting.clients[0];
    assert(waiting.clients =~= seq![fresh]);
    assert(waiting.clients.drop_last() =~= Seq::empty());
    let pruned = waiting.prune(now);
    assert(crate::model::fresh_clients(waiting.clients.drop_last(), now) =~= Seq::empty());
    assert(!fresh.is_stale(now));
    assert(pruned.clients =~= seq![fresh]);
    let stored = pruned.register_pending(request_id, slot);
    assert(stored.clients == pruned.clients);
    lemma_first_of_kind(stored.clients, crate::model::prefers_bridge(name));
    lemma_latest_poller(stored.clients);
    let queued = tools_call_state(waiting, params, now, request_id, slot);
    let request = call_request(name, call_arguments(params), request_id);
    assert(stored.route(name) == Some(0int));
    assert(queued.clients =~= seq![fresh.queued(request)]);
    assert(queued.client_ids() =~= seq![client_id]);
    assert(queued.client_ids().drop_last() =~= Seq::empty());
    assert(position(queued.client_ids(), client_id) == Some(0int));
    assert(queued.outbound(client_id) =~= seq![request]);
    let taken = queued.drain(client_id, pulled);
    assert(taken.client_ids() =~= seq![client_id]);
    assert(taken.client_ids().drop_last() =~= Seq::empty());
    lemma_position(m.pending_ids(), request_id);
    assert(taken.pending == m.pending.push(
        crate::model::PendingModel { request_id, slot },
    ));
    assert(taken.pending_ids() =~= m.pending_ids().push(request_id));
    assert(taken.pending_ids().drop_last() =~= m.pending_ids());
    assert(taken.has_pending(request_id));
    let one = seq![request_id];
    assert(one.drop_last() =~= Seq::empty());
    assert(resolve_all(taken, one.drop_last()) == taken);
    assert(unmatched_ids(taken, one.drop_last()) =~= Seq::empty());
    assert(resolve_all(taken, one) == taken.resolve(request_id));
    assert(taken.wf()) by {
        assert(taken.pending_ids().no_duplicates()) by {
            assert forall|i: int, j: int|
                0 <= i < taken.pending_ids().len() && 0 <= j < taken.pending_ids().len() && i
                    != j implies taken.pending_ids()[i] != taken.pending_ids()[j] by {
                if i < m.pending_ids().len() {
                    assert(taken.pending_ids()[i] == m.pending_ids()[i]);
                }
                if j < m.pending_ids().len() {
                    assert(taken.pending_ids()[j] == m.pending_ids()[j]);
                }
            }
        }
        assert(taken.client_ids().no_duplicates());
    }
    lemma_resolve_wf(taken, request_id);
}

/// Resolving is idempotent: once the pending call of a request is
/// resolved, a second response under the same id finds no pending call,
/// changes nothing, and is reported as unmatched.
pub proof fn law_second_push_changes_nothing(m: StateModel, request_id: Seq<char>)
    requires
        m.wf(),
    ensures
        !m.resolve(request_id).has_pending(request_id),
        m.resolve(request_id).resolve(request_id) == m.resolve(request_id),
        resolve_all(m.resolve(request_id), seq![request_id]) == m.resolve(request_id),
        unmatched_ids(m.resolve(request_id), seq![request_id]) == seq![request_id],
{
    lemma_resolve_wf(m, request_id);
    let once = m.resolve(request_id);
    let one = seq![request_id];
    assert(one.drop_last() =~= Seq::empty());
    assert(resolve_all(once, one.drop_last()) == once);
    assert(unmatched_ids(once, one.drop_last()) =~= Seq::empty());
    assert(unmatched_ids(once, one) =~= one);
}

/// Without a client that is not stale, a tool call that needs a plugin is
/// answered at once with an error, and nothing is left waiting.
pub proof fn law_no_client_fails_at_once(
    m: StateModel,
    id: JsonView,
    params: JsonView,
    now: int,
    request_id: Seq<char>,
    slot: Sender<BridgeToolResponse>,
)
    requires
        m.prune(now).clients.len() == 0,
        params.str_member("name"@) is Some,
        params.str_member("name"@)->0 != STATUS_TOOL@,
        disabled_reason(params.str_member("name"@)->0) is None,
    ensures
        tools_call_plan(m, id, params, now, request_id) == ToolCallPlanView::Reply(
            tool_reply(id, MSG_NO_PLUGIN@, true),
        ),
        tools_call_state(m, params, now, request_id, slot).pending == m.pending,
{
}

} // verus!
