//! The mathematical model of the shared state and of every operation on it.
//!
//! The executable state in [`crate::state`] is specified against these
//! functions: each method says which model operation it performs.

use crate::text::has_substring;
use crate::types::{BridgeToolRequestView, BridgeToolResponse, LogEntryView};
use std::sync::Arc;
use vstd::prelude::*;

verus! {

/// The log ring keeps at most this many entries.
pub const MAX_LOG_BUFFER: usize = 500;

/// A client that has not completed a pull for longer than this many
/// milliseconds is stale.
pub const STALE_AFTER_MS: i64 = 60_000;

/// The position of the first occurrence of `id` in `ids`.
pub open spec fn position(ids: Seq<Seq<char>>, id: Seq<char>) -> Option<int>
    decreases ids.len(),
{
    if ids.len() == 0 {
        None
    } else {
        match position(ids.drop_last(), id) {
            Some(i) => Some(i),
            None => if ids.last() == id {
                Some(ids.len() - 1)
            } else {
                None
            },
        }
    }
}

/// `position` finds the first occurrence, and finds one whenever there is
/// any.
pub proof fn lemma_position(ids: Seq<Seq<char>>, id: Seq<char>)
    ensures
        match position(ids, id) {
            Some(i) => 0 <= i < ids.len() && ids[i] == id && forall|j: int|
                0 <= j < i ==> ids[j] != id,
            None => forall|j: int| 0 <= j < ids.len() ==> ids[j] != id,
        },
    decreases ids.len(),
{
    if ids.len() > 0 {
        let prefix = ids.drop_last();
        lemma_position(prefix, id);
        assert forall|j: int| 0 <= j < prefix.len() implies ids[j] == prefix[j] by {}
        match position(ids, id) {
            Some(i) => {
                assert forall|j: int| 0 <= j < i implies ids[j] != id by {
                    assert(ids[j] == prefix[j]);
                }
            },
            None => {
                assert forall|j: int| 0 <= j < ids.len() implies ids[j] != id by {
                    if j < prefix.len() {
                        assert(ids[j] == prefix[j]);
                    }
                }
            },
        }
    }
}

/// Whether a tool has to run inside the playtest and therefore prefers the
/// playtest bridge.
pub open spec fn prefers_bridge(tool_name: Seq<char>) -> bool {
    ||| tool_name == "studio-virtualuser_key"@
    ||| tool_name == "studio-virtualuser_mouse_button"@
    ||| tool_name == "studio-virtualuser_move_mouse"@
    ||| tool_name == "studio-npc_driver_start"@
    ||| tool_name == "studio-npc_driver_command"@
    ||| tool_name == "studio-npc_driver_stop"@
    ||| tool_name == "studio-playtest_stop"@
}

/// Whether a plugin version names a playtest bridge.
pub open spec fn is_bridge_version(version: Seq<char>) -> bool {
    has_substring(version, "playtest"@)
}

/// A registered plugin session.
pub struct ClientModel {
    pub id: Seq<char>,
    pub version: Seq<char>,
    pub queue: Seq<BridgeToolRequestView>,
    pub wake: Arc<tokio::sync::Notify>,
    pub last_poll: int,
}

impl ClientModel {
    /// Whether the session is a playtest bridge rather than the main plugin.
    pub open spec fn is_playtest_bridge(self) -> bool {
        is_bridge_version(self.version)
    }

    /// Whether the session's last completed pull lies more than the stale
    /// interval before `now`.
    pub open spec fn is_stale(self, now: int) -> bool {
        self.last_poll < now - STALE_AFTER_MS
    }

    /// The session without its queued requests, polled at `now`.
    pub open spec fn drained(self, now: int) -> ClientModel {
        ClientModel { queue: Seq::empty(), last_poll: now, ..self }
    }

    /// The session with one more queued request.
    pub open spec fn queued(self, request: BridgeToolRequestView) -> ClientModel {
        ClientModel { queue: self.queue.push(request), ..self }
    }
}

/// A reply slot waiting for the response to one request.
pub struct PendingModel {
    pub request_id: Seq<char>,
    pub slot: tokio::sync::oneshot::Sender<BridgeToolResponse>,
}

/// The playtest snapshot.
pub struct PlaytestModel {
    pub active: bool,
    pub session_id: Option<Seq<char>>,
    pub mode: Option<Seq<char>>,
}

/// The position of the first client whose kind is the preferred one.
pub open spec fn first_of_kind(clients: Seq<ClientModel>, bridge: bool) -> Option<int>
    decreases clients.len(),
{
    if clients.len() == 0 {
        None
    } else {
        match first_of_kind(clients.drop_last(), bridge) {
            Some(i) => Some(i),
            None => if clients.last().is_playtest_bridge() == bridge {
                Some(clients.len() - 1)
            } else {
                None
            },
        }
    }
}

/// The position of the client that polled most recently; among equals the
/// last one. Meaningful for a registry that is not empty.
pub open spec fn latest_poller(clients: Seq<ClientModel>) -> int
    decreases clients.len(),
{
    if clients.len() <= 1 {
        0
    } else {
        let before = latest_poller(clients.drop_last());
        if clients.last().last_poll >= clients[before].last_poll {
            clients.len() - 1
        } else {
            before
        }
    }
}

/// `first_of_kind` finds the first client of the kind, and finds one
/// whenever there is any.
pub proof fn lemma_first_of_kind(clients: Seq<ClientModel>, bridge: bool)
    ensures
        match first_of_kind(clients, bridge) {
            Some(i) => 0 <= i < clients.len() && clients[i].is_playtest_bridge() == bridge
                && forall|j: int| 0 <= j < i ==> clients[j].is_playtest_bridge() != bridge,
            None => forall|j: int|
                0 <= j < clients.len() ==> clients[j].is_playtest_bridge() != bridge,
        },
    decreases clients.len(),
{
    if clients.len() > 0 {
        let prefix = clients.drop_last();
        lemma_first_of_kind(prefix, bridge);
        match first_of_kind(clients, bridge) {
            Some(i) => {
                assert forall|j: int| 0 <= j < i implies clients[j].is_playtest_bridge()
                    != bridge by {
                    assert(clients[j] == prefix[j]);
                }
            },
            None => {
                assert forall|j: int| 0 <= j < clients.len() implies clients[j].is_playtest_bridge()
                    != bridge by {
                    if j < prefix.len() {
                        assert(clients[j] == prefix[j]);
                    }
                }
            },
        }
    }
}

/// `latest_poller` names a client, and none has polled later.
pub proof fn lemma_latest_poller(clients: Seq<ClientModel>)
    requires
        clients.len() > 0,
    ensures
        0 <= latest_poller(clients) < clients.len(),
        forall|j: int|
            0 <= j < clients.len() ==> (#[trigger] clients[j]).last_poll <= clients[latest_poller(
                clients,
            )].last_poll,
    decreases clients.len(),
{
    if clients.len() > 1 {
        let prefix = clients.drop_last();
        lemma_latest_poller(prefix);
        assert forall|j: int| 0 <= j < clients.len() implies (#[trigger] clients[j]).last_poll
            <= clients[latest_poller(clients)].last_poll by {
            if j < prefix.len() {
                assert(clients[j] == prefix[j]);
            }
            assert(clients[latest_poller(prefix)] == prefix[latest_poller(prefix)]);
        }
    }
}

/// The clients that are not stale at `now`, in their order.
pub open spec fn fresh_clients(clients: Seq<ClientModel>, now: int) -> Seq<ClientModel>
    decreases clients.len(),
{
    if clients.len() == 0 {
        Seq::empty()
    } else {
        let rest = fresh_clients(clients.drop_last(), now);
        if clients.last().is_stale(now) {
            rest
        } else {
            rest.push(clients.last())
        }
    }
}

/// The entries with a sequence number above `since_seq`, in their order.
pub open spec fn newer_entries(logs: Seq<LogEntryView>, since_seq: nat) -> Seq<LogEntryView>
    decreases logs.len(),
{
    if logs.len() == 0 {
        Seq::empty()
    } else {
        let rest = newer_entries(logs.drop_last(), since_seq);
        if logs.last().seq > since_seq {
            rest.push(logs.last())
        } else {
            rest
        }
    }
}

/// The shared state of the bridge.
pub struct StateModel {
    pub clients: Seq<ClientModel>,
    pub pending: Seq<PendingModel>,
    pub logs: Seq<LogEntryView>,
    pub log_seq: nat,
    pub playtest: PlaytestModel,
    pub capture_dir: std::path::PathBuf,
}

impl StateModel {
    /// The ids of the registered clients, in registration order.
    pub open spec fn client_ids(self) -> Seq<Seq<char>> {
        self.clients.map_values(|c: ClientModel| c.id)
    }

    /// The ids of the requests whose reply is awaited.
    pub open spec fn pending_ids(self) -> Seq<Seq<char>> {
        self.pending.map_values(|p: PendingModel| p.request_id)
    }

    /// The invariant of the state: no client id and no request id occurs
    /// twice, the log ring is within its bound, and the sequence numbers of
    /// its entries rise strictly and never pass the counter.
    pub open spec fn wf(self) -> bool {
        &&& self.client_ids().no_duplicates()
        &&& self.pending_ids().no_duplicates()
        &&& self.logs.len() <= MAX_LOG_BUFFER
        &&& forall|i: int, j: int|
            0 <= i < j < self.logs.len() ==> self.logs[i].seq < self.logs[j].seq
        &&& forall|i: int| 0 <= i < self.logs.len() ==> self.logs[i].seq <= self.log_seq
        &&& self.log_seq <= u64::MAX
    }

    /// The state at startup.
    pub open spec fn initial(capture_dir: std::path::PathBuf) -> StateModel {
        StateModel {
            clients: Seq::empty(),
            pending: Seq::empty(),
            logs: Seq::empty(),
            log_seq: 0,
            playtest: PlaytestModel { active: false, session_id: None, mode: None },
            capture_dir,
        }
    }

    /// Whether a client is registered under `id`.
    pub open spec fn has_client(self, id: Seq<char>) -> bool {
        position(self.client_ids(), id) is Some
    }

    /// The client registered under `id`.
    pub open spec fn client(self, id: Seq<char>) -> ClientModel
        recommends
            self.has_client(id),
    {
        self.clients[position(self.client_ids(), id)->0]
    }

    /// Whether a reply is awaited for request `id`.
    pub open spec fn has_pending(self, id: Seq<char>) -> bool {
        position(self.pending_ids(), id) is Some
    }

    /// Registers a client with an empty queue, polled at `now`. A client
    /// already registered under the id is replaced.
    pub open spec fn register_client(
        self,
        id: Seq<char>,
        version: Seq<char>,
        wake: Arc<tokio::sync::Notify>,
        now: int,
    ) -> StateModel {
        let fresh = ClientModel { id, version, queue: Seq::empty(), wake, last_poll: now };
        match position(self.client_ids(), id) {
            Some(i) => StateModel { clients: self.clients.update(i, fresh), ..self },
            None => StateModel { clients: self.clients.push(fresh), ..self },
        }
    }

    /// Removes the client registered under `id`, if there is one.
    pub open spec fn remove_client(self, id: Seq<char>) -> StateModel {
        match position(self.client_ids(), id) {
            Some(i) => StateModel { clients: self.clients.remove(i), ..self },
            None => self,
        }
    }

    /// Removes every client that is stale at `now`.
    pub open spec fn prune(self, now: int) -> StateModel {
        StateModel { clients: fresh_clients(self.clients, now), ..self }
    }

    /// The position of the client that a request for `tool_name` goes to:
    /// the first client of the preferred kind, else the latest poller.
    pub open spec fn route(self, tool_name: Seq<char>) -> Option<int> {
        if self.clients.len() == 0 {
            None
        } else {
            match first_of_kind(self.clients, prefers_bridge(tool_name)) {
                Some(i) => Some(i),
                None => Some(latest_poller(self.clients)),
            }
        }
    }

    /// Appends the request to the queue of the client it is routed to.
    /// With an empty registry nothing changes.
    pub open spec fn enqueue(self, request: BridgeToolRequestView) -> StateModel {
        match self.route(request.tool_name) {
            Some(i) => StateModel {
                clients: self.clients.update(i, self.clients[i].queued(request)),
                ..self
            },
            None => self,
        }
    }

    /// The requests that a pull by client `id` takes.
    pub open spec fn outbound(self, id: Seq<char>) -> Seq<BridgeToolRequestView> {
        match position(self.client_ids(), id) {
            Some(i) => self.clients[i].queue,
            None => Seq::empty(),
        }
    }

    /// Empties the queue of client `id` and records the pull at `now`. For
    /// an unknown id nothing changes.
    pub open spec fn drain(self, id: Seq<char>, now: int) -> StateModel {
        match position(self.client_ids(), id) {
            Some(i) => StateModel {
                clients: self.clients.update(i, self.clients[i].drained(now)),
                ..self
            },
            None => self,
        }
    }

    /// Stores a reply slot under the request id. A slot already stored
    /// under the id is replaced.
    pub open spec fn register_pending(
        self,
        id: Seq<char>,
        slot: tokio::sync::oneshot::Sender<BridgeToolResponse>,
    ) -> StateModel {
        let fresh = PendingModel { request_id: id, slot };
        match position(self.pending_ids(), id) {
            Some(i) => StateModel { pending: self.pending.update(i, fresh), ..self },
            None => StateModel { pending: self.pending.push(fresh), ..self },
        }
    }

    /// Removes the reply slot stored under the request id, if there is one.
    pub open spec fn resolve(self, id: Seq<char>) -> StateModel {
        match position(self.pending_ids(), id) {
            Some(i) => StateModel { pending: self.pending.remove(i), ..self },
            None => self,
        }
    }

    /// The entry that the next `push_log` creates.
    pub open spec fn next_entry(
        self,
        level: Seq<char>,
        message: Seq<char>,
        session_id: Option<Seq<char>>,
        ts: int,
    ) -> LogEntryView {
        LogEntryView { seq: self.log_seq + 1, ts, level, message, session_id }
    }

    /// Advances the counter and appends an entry with the new sequence
    /// number; a full ring first gives up its oldest entry.
    pub open spec fn push_log(
        self,
        level: Seq<char>,
        message: Seq<char>,
        session_id: Option<Seq<char>>,
        ts: int,
    ) -> StateModel {
        let entry = self.next_entry(level, message, session_id, ts);
        let kept = if self.logs.len() >= MAX_LOG_BUFFER {
            self.logs.drop_first()
        } else {
            self.logs
        };
        StateModel { logs: kept.push(entry), log_seq: self.log_seq + 1, ..self }
    }

    /// The entries with a sequence number above `since_seq`, oldest first,
    /// at most `limit` of them.
    pub open spec fn logs_since(self, since_seq: nat, limit: nat) -> Seq<LogEntryView> {
        let newer = newer_entries(self.logs, since_seq);
        if newer.len() <= limit {
            newer
        } else {
            newer.subrange(0, limit as int)
        }
    }

    /// Replaces the playtest snapshot.
    pub open spec fn update_playtest(
        self,
        active: bool,
        session_id: Option<Seq<char>>,
        mode: Option<Seq<char>>,
    ) -> StateModel {
        StateModel { playtest: PlaytestModel { active, session_id, mode }, ..self }
    }
}

/// Every client that `fresh_clients` keeps was there before, and the kept
/// ids are those of the kept clients.
pub proof fn lemma_fresh_clients(clients: Seq<ClientModel>, now: int)
    ensures
        fresh_clients(clients, now).len() <= clients.len(),
        forall|i: int|
            0 <= i < fresh_clients(clients, now).len() ==> {
                &&& !(#[trigger] fresh_clients(clients, now)[i]).is_stale(now)
                &&& clients.contains(fresh_clients(clients, now)[i])
            },
        forall|j: int|
            0 <= j < clients.len() && !(#[trigger] clients[j]).is_stale(now) ==> fresh_clients(
                clients,
                now,
            ).contains(clients[j]),
        clients.map_values(|c: ClientModel| c.id).no_duplicates() ==> fresh_clients(
            clients,
            now,
        ).map_values(|c: ClientModel| c.id).no_duplicates(),
        forall|i: int|
            0 <= i < fresh_clients(clients, now).len() ==> clients.map_values(
                |c: ClientModel| c.id,
            ).contains(#[trigger] fresh_clients(clients, now)[i].id),
    decreases clients.len(),
{
    let kept = fresh_clients(clients, now);
    let ids = clients.map_values(|c: ClientModel| c.id);
    if clients.len() > 0 {
        let prefix = clients.drop_last();
        let rest = fresh_clients(prefix, now);
        let prefix_ids = prefix.map_values(|c: ClientModel| c.id);
        lemma_fresh_clients(prefix, now);
        assert forall|i: int| 0 <= i < kept.len() implies {
            &&& !(#[trigger] kept[i]).is_stale(now)
            &&& clients.contains(kept[i])
        } by {
            if i < rest.len() {
                assert(kept[i] == rest[i]);
                assert(prefix.contains(rest[i]));
                let w = choose|w: int| 0 <= w < prefix.len() && prefix[w] == rest[i];
                assert(clients[w] == rest[i]);
            } else {
                assert(kept[i] == clients.last());
                assert(clients[clients.len() - 1] == kept[i]);
            }
        }
        assert forall|j: int| 0 <= j < clients.len() && !(#[trigger] clients[j]).is_stale(
            now,
        ) implies kept.contains(clients[j]) by {
            if j < prefix.len() {
                assert(prefix[j] == clients[j]);
                assert(rest.contains(prefix[j]));
                let w = choose|w: int| 0 <= w < rest.len() && rest[w] == prefix[j];
                assert(kept[w] == clients[j]);
            } else {
                assert(kept[kept.len() - 1] == clients[j]);
            }
        }
        assert forall|i: int| 0 <= i < kept.len() implies ids.contains(
            #[trigger] kept[i].id,
        ) by {
            if i < rest.len() {
                assert(kept[i] == rest[i]);
                assert(prefix_ids.contains(rest[i].id));
                let w = choose|w: int| 0 <= w < prefix_ids.len() && prefix_ids[w] == rest[i].id;
                assert(ids[w] == kept[i].id);
            } else {
                assert(ids[clients.len() - 1] == kept[i].id);
            }
        }
        if ids.no_duplicates() {
            let kept_ids = kept.map_values(|c: ClientModel| c.id);
            assert forall|i: int, j: int|
                0 <= i < prefix_ids.len() && 0 <= j < prefix_ids.len() && i != j implies prefix_ids[i]
                != prefix_ids[j] by {
                assert(prefix_ids[i] == ids[i]);
                assert(prefix_ids[j] == ids[j]);
            }
            assert(prefix_ids.no_duplicates());
            let rest_ids = rest.map_values(|c: ClientModel| c.id);
            assert forall|i: int, j: int|
                0 <= i < kept_ids.len() && 0 <= j < kept_ids.len() && i != j implies kept_ids[i]
                != kept_ids[j] by {
                if i < rest.len() && j < rest.len() {
                    assert(kept_ids[i] == rest_ids[i]);
                    assert(kept_ids[j] == rest_ids[j]);
                } else {
                    let (lo, hi) = if i < j {
                        (i, j)
                    } else {
                        (j, i)
                    };
                    assert(hi == rest.len());
                    assert(kept[hi] == clients.last());
                    assert(kept[lo] == rest[lo]);
                    assert(prefix_ids.contains(rest[lo].id));
                    let w = choose|w: int|
                        0 <= w < prefix_ids.len() && prefix_ids[w] == rest[lo].id;
                    assert(ids[w] == rest[lo].id);
                    assert(ids[clients.len() - 1] == clients.last().id);
                }
            }
        }
    }
}

/// Draining a queue keeps every client registered.
pub proof fn lemma_drain_keeps_clients(m: StateModel, id: Seq<char>, now: int)
    ensures
        m.drain(id, now).client_ids() == m.client_ids(),
        forall|other: Seq<char>| m.drain(id, now).has_client(other) == m.has_client(other),
        m.has_client(id) ==> m.drain(id, now).client(id).wake == m.client(id).wake,
{
    lemma_position(m.client_ids(), id);
    assert(m.drain(id, now).client_ids() =~= m.client_ids());
}

/// Pruning keeps the invariant.
pub proof fn lemma_prune_wf(m: StateModel, now: int)
    requires
        m.wf(),
    ensures
        m.prune(now).wf(),
{
    lemma_fresh_clients(m.clients, now);
}

/// Appending a log entry keeps the invariant as long as the counter can
/// still advance.
pub proof fn lemma_push_log_wf(
    m: StateModel,
    level: Seq<char>,
    message: Seq<char>,
    session_id: Option<Seq<char>>,
    ts: int,
)
    requires
        m.wf(),
        m.log_seq < u64::MAX,
    ensures
        m.push_log(level, message, session_id, ts).wf(),
{
}

/// Resolving a pending call keeps the invariant and touches only the
/// pending table.
pub proof fn lemma_resolve_wf(m: StateModel, id: Seq<char>)
    requires
        m.wf(),
    ensures
        m.resolve(id).wf(),
        m.resolve(id).log_seq == m.log_seq,
        m.resolve(id).clients == m.clients,
        m.resolve(id).logs == m.logs,
        !m.resolve(id).has_pending(id),
{
    let ids = m.pending_ids();
    lemma_position(ids, id);
    match position(ids, id) {
        Some(i) => {
            let after = m.resolve(id).pending_ids();
            assert(after =~= ids.remove(i));
            lemma_position(after, id);
            if position(after, id) is Some {
                let j = position(after, id)->0;
                if j < i {
                    assert(after[j] == ids[j]);
                } else {
                    assert(after[j] == ids[j + 1]);
                }
            }
        },
        None => {},
    }
}

} // verus!
