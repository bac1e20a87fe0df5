//! The shared state: client registry, outbound queues, pending-reply table,
//! bounded log ring and playtest snapshot.
//!
//! Every operation is specified by the model operation of the same name in
//! [`crate::model`]. Operations that read the clock come in two forms: one
//! that takes the time as an argument and one that reads it.

use crate::model::{
    first_of_kind, fresh_clients, latest_poller, lemma_first_of_kind, lemma_position,
    newer_entries, position, ClientModel, PendingModel, PlaytestModel, StateModel,
    MAX_LOG_BUFFER, STALE_AFTER_MS,
};
use crate::outside::{deliver, now_millis, share_wake};
use crate::text::{copy_opt, opt_text, str_contains};
use crate::types::{BridgeToolRequest, BridgeToolResponse, LogEntry};
use std::collections::VecDeque;
use std::path::PathBuf;
use std::sync::Arc;
use tokio::sync::oneshot::Sender;
use tokio::sync::Notify;
use vstd::prelude::*;
use vstd::std_specs::vecdeque::VecDequeAdditionalSpecFns;

verus! {

/// Whether a tool has to run inside the playtest.
pub fn prefers_bridge(tool_name: &str) -> (r: bool)
    ensures
        r == crate::model::prefers_bridge(tool_name@),
{
    tool_name.eq("studio-virtualuser_key") || tool_name.eq("studio-virtualuser_mouse_button")
        || tool_name.eq("studio-virtualuser_move_mouse") || tool_name.eq(
        "studio-npc_driver_start",
    ) || tool_name.eq("studio-npc_driver_command") || tool_name.eq("studio-npc_driver_stop")
        || tool_name.eq("studio-playtest_stop")
}

/// Whether a last poll at `last_poll` is stale at `now`.
pub fn is_stale(last_poll: i64, now: i64) -> (r: bool)
    ensures
        r == (last_poll < now - STALE_AFTER_MS),
{
    (last_poll as i128) < (now as i128) - (STALE_AFTER_MS as i128)
}

struct ClientState {
    client_id: String,
    plugin_version: String,
    outbound_queue: Vec<BridgeToolRequest>,
    notify: Arc<Notify>,
    last_poll: i64,
}

impl ClientState {
    spec fn model(self) -> ClientModel {
        ClientModel {
            id: self.client_id@,
            version: self.plugin_version@,
            queue: self.outbound_queue@.map_values(|r: BridgeToolRequest| r@),
            wake: self.notify,
            last_poll: self.last_poll as int,
        }
    }

    /// Whether this client is the playtest bridge rather than the main
    /// plugin.
    fn is_playtest_bridge(&self) -> (r: bool)
        ensures
            r == self.model().is_playtest_bridge(),
    {
        str_contains(self.plugin_version.as_str(), "playtest")
    }
}

struct PendingCall {
    request_id: String,
    reply_slot: Sender<BridgeToolResponse>,
}

impl PendingCall {
    spec fn model(self) -> PendingModel {
        PendingModel { request_id: self.request_id@, slot: self.reply_slot }
    }
}

/// The playtest snapshot, replaced as a whole by each update.
#[derive(Debug, Clone, PartialEq, Eq)]
pub struct PlaytestState {
    pub active: bool,
    pub session_id: Option<String>,
    pub mode: Option<String>,
}

impl View for PlaytestState {
    type V = PlaytestModel;

    open spec fn view(&self) -> PlaytestModel {
        PlaytestModel {
            active: self.active,
            session_id: opt_text(self.session_id),
            mode: opt_text(self.mode),
        }
    }
}

impl Default for PlaytestState {
    fn default() -> (r: PlaytestState)
        ensures
            r@ == (PlaytestModel { active: false, session_id: None, mode: None }),
    {
        PlaytestState { active: false, session_id: None, mode: None }
    }
}

/// The state that the stdio side and the HTTP side share.
pub struct SharedState {
    clients: Vec<ClientState>,
    pending_calls: Vec<PendingCall>,
    log_buffer: VecDeque<LogEntry>,
    log_seq: u64,
    playtest_state: PlaytestState,
    capture_dir: PathBuf,
}

spec fn clients_model(clients: Seq<ClientState>) -> Seq<ClientModel> {
    clients.map_values(|c: ClientState| c.model())
}

spec fn pending_model(pending: Seq<PendingCall>) -> Seq<PendingModel> {
    pending.map_values(|p: PendingCall| p.model())
}

spec fn logs_model(logs: Seq<LogEntry>) -> Seq<crate::types::LogEntryView> {
    logs.map_values(|e: LogEntry| e@)
}

impl View for SharedState {
    type V = StateModel;

    closed spec fn view(&self) -> StateModel {
        StateModel {
            clients: clients_model(self.clients@),
            pending: pending_model(self.pending_calls@),
            logs: logs_model(self.log_buffer@),
            log_seq: self.log_seq as nat,
            playtest: self.playtest_state@,
            capture_dir: self.capture_dir,
        }
    }
}

impl SharedState {
    /// The state at startup: no client, no pending call, an empty log and
    /// no playtest.
    pub fn new(capture_dir: PathBuf) -> (r: SharedState)
        ensures
            r@ == StateModel::initial(capture_dir),
            r@.wf(),
    {
        let r = SharedState {
            clients: Vec::new(),
            pending_calls: Vec::new(),
            log_buffer: VecDeque::with_capacity(MAX_LOG_BUFFER),
            log_seq: 0,
            playtest_state: PlaytestState::default(),
            capture_dir,
        };
        proof {
            assert(r@.clients =~= Seq::empty());
            assert(r@.pending =~= Seq::empty());
            assert(r@.logs =~= Seq::empty());
            assert(r@.client_ids() =~= Seq::empty());
            assert(r@.pending_ids() =~= Seq::empty());
        }
        r
    }

    /// The directory that captures are written to.
    pub fn capture_dir(&self) -> (r: &PathBuf)
        ensures
            *r == self@.capture_dir,
    {
        &self.capture_dir
    }

    // ─── Client Management ────────────────────────────────────

    /// The position of the client registered under `client_id`.
    fn find_client(&self, client_id: &str) -> (r: Option<usize>)
        ensures
            match r {
                Some(i) => i < self.clients.len() && position(self@.client_ids(), client_id@)
                    == Some(i as int),
                None => position(self@.client_ids(), client_id@) is None,
            },
    {
        let ghost ids = self@.client_ids();
        let mut i: usize = 0;
        while i < self.clients.len()
            invariant
                i <= self.clients.len(),
                ids == self@.client_ids(),
                ids.len() == self.clients.len(),
                position(ids.subrange(0, i as int), client_id@) is None,
            decreases self.clients.len() - i,
        {
            proof {
                assert(ids.subrange(0, i as int + 1).drop_last() =~= ids.subrange(0, i as int));
                assert(ids[i as int] == self.clients[i as int].client_id@);
            }
            if self.clients[i].client_id.as_str().eq(client_id) {
                proof {
                    lemma_position(ids, client_id@);
                    lemma_position(ids.subrange(0, i as int), client_id@);
                    let found = position(ids, client_id@);
                    assert(found is Some);
                    if found->0 < i {
                        assert(ids.subrange(0, i as int)[found->0] == ids[found->0]);
                    }
                }
                return Some(i);
            }
            i = i + 1;
        }
        proof {
            assert(ids.subrange(0, i as int) =~= ids);
        }
        None
    }

    /// Registers a client polled at `now`, with an empty queue and a wakeup
    /// of its own. A client already registered under the id is replaced.
    pub fn register_client_at(&mut self, client_id: String, plugin_version: String, now: i64)
        requires
            old(self)@.wf(),
        ensures
            final(self)@.has_client(client_id@),
            final(self)@ == old(self)@.register_client(
                client_id@,
                plugin_version@,
                final(self)@.client(client_id@).wake,
                now as int,
            ),
            final(self)@.wf(),
    {
        let found = self.find_client(client_id.as_str());
        let fresh = ClientState {
            client_id,
            plugin_version,
            outbound_queue: Vec::new(),
            notify: Arc::new(Notify::new()),
            last_poll: now,
        };
        let ghost before = self@;
        let ghost ids = before.client_ids();
        proof {
            lemma_position(ids, fresh.client_id@);
            assert(fresh.model().queue =~= Seq::empty());
        }
        match found {
            Some(i) => {
                self.clients[i] = fresh;
                proof {
                    assert(self@.clients =~= before.clients.update(i as int, fresh.model()));
                    assert(self@.client_ids() =~= ids);
                }
            },
            None => {
                self.clients.push(fresh);
                proof {
                    assert(self@.clients =~= before.clients.push(fresh.model()));
                    assert(self@.client_ids() =~= ids.push(fresh.client_id@));
                    lemma_position(self@.client_ids(), fresh.client_id@);
                }
            },
        }
        proof {
            lemma_position(self@.client_ids(), fresh.client_id@);
        }
    }

    /// Registers a client polled at the current time.
    pub fn register_client(&mut self, client_id: String, plugin_version: String)
        requires
            old(self)@.wf(),
        ensures
            final(self)@.has_client(client_id@),
            exists|now: int|
                final(self)@ == old(self)@.register_client(
                    client_id@,
                    plugin_version@,
                    final(self)@.client(client_id@).wake,
                    now,
                ),
            final(self)@.wf(),
    {
        let now = now_millis();
        self.register_client_at(client_id, plugin_version, now);
    }

    /// Removes the client registered under `client_id`, if there is one.
    pub fn remove_client(&mut self, client_id: &str)
        requires
            old(self)@.wf(),
        ensures
            final(self)@ == old(self)@.remove_client(client_id@),
            final(self)@.wf(),
    {
        let ghost before = self@;
        match self.find_client(client_id) {
            Some(i) => {
                self.clients.remove(i);
                proof {
                    assert(self@.clients =~= before.clients.remove(i as int));
                    assert(self@.client_ids() =~= before.client_ids().remove(i as int));
                }
            },
            None => {},
        }
    }

    /// Removes the clients that have not completed a pull within the stale
    /// interval before `now`.
    pub fn prune_stale_clients_at(&mut self, now: i64)
        requires
            old(self)@.wf(),
        ensures
            final(self)@ == old(self)@.prune(now as int),
            final(self)@.wf(),
    {
        let ghost before = self@;
        let ghost orig = before.clients;
        let ghost mut k: int = 0;
        let mut i: usize = 0;
        while i < self.clients.len()
            invariant
                i <= self.clients.len(),
                0 <= k <= orig.len(),
                self.clients.len() - i == orig.len() - k,
                orig == before.clients,
                clients_model(self.clients@.subrange(0, i as int)) == fresh_clients(
                    orig.subrange(0, k),
                    now as int,
                ),
                clients_model(self.clients@.subrange(i as int, self.clients.len() as int))
                    == orig.subrange(k, orig.len() as int),
                self@.pending == before.pending,
                self@.logs == before.logs,
                self@.log_seq == before.log_seq,
                self@.playtest == before.playtest,
                self@.capture_dir == before.capture_dir,
            decreases self.clients.len() - i,
        {
            let ghost current = self.clients@;
            proof {
                assert(clients_model(current.subrange(i as int, current.len() as int))[0]
                    == current[i as int].model());
                assert(orig.subrange(k, orig.len() as int)[0] == orig[k]);
                assert(orig.subrange(0, k + 1).drop_last() =~= orig.subrange(0, k));
            }
            if is_stale(self.clients[i].last_poll, now) {
                self.clients.remove(i);
                proof {
                    assert(self.clients@.subrange(0, i as int) =~= current.subrange(0, i as int));
                    assert(clients_model(
                        self.clients@.subrange(i as int, self.clients.len() as int),
                    ) =~= clients_model(
                        current.subrange(i as int, current.len() as int),
                    ).drop_first());
                    assert(orig.subrange(k, orig.len() as int).drop_first() =~= orig.subrange(
                        k + 1,
                        orig.len() as int,
                    ));
                }
            } else {
                proof {
                    assert(clients_model(current.subrange(0, i as int + 1)) =~= clients_model(
                        current.subrange(0, i as int),
                    ).push(current[i as int].model()));
                    assert(clients_model(
                        current.subrange(i as int + 1, current.len() as int),
                    ) =~= clients_model(
                        current.subrange(i as int, current.len() as int),
                    ).drop_first());
                    assert(orig.subrange(k, orig.len() as int).drop_first() =~= orig.subrange(
                        k + 1,
                        orig.len() as int,
                    ));
                }
                i = i + 1;
            }
            proof {
                k = k + 1;
            }
        }
        proof {
            assert(self.clients@.subrange(0, i as int) =~= self.clients@);
            assert(orig.subrange(0, k) =~= orig);
            crate::model::lemma_prune_wf(before, now as int);
        }
    }

    /// Removes the clients that are stale at the current time.
    pub fn prune_stale_clients(&mut self)
        requires
            old(self)@.wf(),
        ensures
            exists|now: int| final(self)@ == old(self)@.prune(now),
            final(self)@.wf(),
    {
        let now = now_millis();
        self.prune_stale_clients_at(now);
    }

    /// Prunes at `now`, then tells whether any client is left.
    pub fn has_connected_client_at(&mut self, now: i64) -> (r: bool)
        requires
            old(self)@.wf(),
        ensures
            final(self)@ == old(self)@.prune(now as int),
            r == (final(self)@.clients.len() > 0),
            final(self)@.wf(),
    {
        self.prune_stale_clients_at(now);
        self.clients.len() > 0
    }

    /// Prunes at the current time, then tells whether any client is left.
    pub fn has_connected_client(&mut self) -> (r: bool)
        requires
            old(self)@.wf(),
        ensures
            exists|now: int| final(self)@ == old(self)@.prune(now),
            r == (final(self)@.clients.len() > 0),
            final(self)@.wf(),
    {
        let now = now_millis();
        self.has_connected_client_at(now)
    }

    /// Prunes at `now`, then counts the clients that are left.
    pub fn connected_client_count_at(&mut self, now: i64) -> (r: usize)
        requires
            old(self)@.wf(),
        ensures
            final(self)@ == old(self)@.prune(now as int),
            r == final(self)@.clients.len(),
            final(self)@.wf(),
    {
        self.prune_stale_clients_at(now);
        self.clients.len()
    }

    /// Prunes at the current time, then counts the clients that are left.
    pub fn connected_client_count(&mut self) -> (r: usize)
        requires
            old(self)@.wf(),
        ensures
            exists|now: int| final(self)@ == old(self)@.prune(now),
            r == final(self)@.clients.len(),
            final(self)@.wf(),
    {
        let now = now_millis();
        self.connected_client_count_at(now)
    }

    /// The id of the client that registered first among those present.
    pub fn first_client_id(&self) -> (r: Option<String>)
        ensures
            opt_text(r) == if self@.clients.len() > 0 {
                Some(self@.clients[0].id)
            } else {
                None
            },
    {
        if self.clients.len() > 0 {
            Some(self.clients[0].client_id.clone())
        } else {
            None
        }
    }

    /// For each client, in registration order: its id, its version, the
    /// time of its last poll in milliseconds, and whether it is a playtest
    /// bridge.
    pub fn client_info(&self) -> (r: Vec<(String, String, i64, bool)>)
        ensures
            r.len() == self@.clients.len(),
            forall|i: int|
                0 <= i < r.len() ==> {
                    let c = self@.clients[i];
                    &&& (#[trigger] r[i]).0@ == c.id
                    &&& r[i].1@ == c.version
                    &&& r[i].2 == c.last_poll
                    &&& r[i].3 == c.is_playtest_bridge()
                },
    {
        let mut out: Vec<(String, String, i64, bool)> = Vec::new();
        let mut i: usize = 0;
        while i < self.clients.len()
            invariant
                i <= self.clients.len(),
                out.len() == i,
                forall|j: int|
                    0 <= j < i ==> {
                        let c = self.clients[j].model();
                        &&& (#[trigger] out[j]).0@ == c.id
                        &&& out[j].1@ == c.version
                        &&& out[j].2 == c.last_poll
                        &&& out[j].3 == c.is_playtest_bridge()
                    },
            decreases self.clients.len() - i,
        {
            let c = &self.clients[i];
            let bridge = c.is_playtest_bridge();
            out.push((c.client_id.clone(), c.plugin_version.clone(), c.last_poll, bridge));
            i = i + 1;
        }
        out
    }

    // ─── Tool Request Queuing ─────────────────────────────────

    /// The position of the first client of the given kind.
    fn find_kind(&self, bridge: bool) -> (r: Option<usize>)
        ensures
            match r {
                Some(i) => i < self.clients.len() && first_of_kind(self@.clients, bridge)
                    == Some(i as int),
                None => first_of_kind(self@.clients, bridge) is None,
            },
    {
        let ghost all = self@.clients;
        let mut i: usize = 0;
        while i < self.clients.len()
            invariant
                i <= self.clients.len(),
                all == self@.clients,
                all.len() == self.clients.len(),
                first_of_kind(all.subrange(0, i as int), bridge) is None,
            decreases self.clients.len() - i,
        {
            proof {
                assert(all.subrange(0, i as int + 1).drop_last() =~= all.subrange(0, i as int));
                assert(all[i as int] == self.clients[i as int].model());
            }
            if self.clients[i].is_playtest_bridge() == bridge {
                proof {
                    lemma_first_of_kind(all, bridge);
                    lemma_first_of_kind(all.subrange(0, i as int), bridge);
                    let found = first_of_kind(all, bridge);
                    assert(found is Some);
                    if found->0 < i {
                        assert(all.subrange(0, i as int)[found->0] == all[found->0]);
                    }
                }
                return Some(i);
            }
            i = i + 1;
        }
        proof {
            assert(all.subrange(0, i as int) =~= all);
        }
        None
    }

    /// The position of the client that polled most recently.
    fn find_latest(&self) -> (r: usize)
        requires
            self.clients.len() > 0,
        ensures
            r < self.clients.len(),
            r == latest_poller(self@.clients),
    {
        let ghost all = self@.clients;
        let mut best: usize = 0;
        let mut i: usize = 1;
        proof {
            assert(all.subrange(0, 1).len() == 1);
        }
        while i < self.clients.len()
            invariant
                1 <= i <= self.clients.len(),
                best < i,
                all == self@.clients,
                all.len() == self.clients.len(),
                best == latest_poller(all.subrange(0, i as int)),
            decreases self.clients.len() - i,
        {
            proof {
                assert(all.subrange(0, i as int + 1).drop_last() =~= all.subrange(0, i as int));
                assert(all[i as int] == self.clients[i as int].model());
                assert(all[best as int] == self.clients[best as int].model());
                assert(all.subrange(0, i as int)[best as int] == all[best as int]);
                assert(all.subrange(0, i as int + 1)[best as int] == all[best as int]);
            }
            if self.clients[i].last_poll >= self.clients[best].last_poll {
                best = i;
            }
            i = i + 1;
        }
        proof {
            assert(all.subrange(0, i as int) =~= all);
        }
        best
    }

    /// Queues a tool request for the client that its tool is routed to and
    /// signals that client's wakeup.
    ///
    /// A tool that runs inside the playtest goes to the first playtest
    /// bridge, any other tool to the first main plugin. Where no client of
    /// that kind is registered, the request goes to the client that polled
    /// most recently. The result is `false` exactly when no client is
    /// registered.
    pub fn enqueue_tool_request(&mut self, request: BridgeToolRequest) -> (r: bool)
        requires
            old(self)@.wf(),
        ensures
            r == (old(self)@.clients.len() > 0),
            final(self)@ == old(self)@.enqueue(request@),
            final(self)@.wf(),
    {
        if self.clients.len() == 0 {
            return false;
        }
        let bridge = prefers_bridge(request.tool_name.as_str());
        let target = match self.find_kind(bridge) {
            Some(i) => i,
            None => self.find_latest(),
        };
        let ghost before = self@;
        let ghost entry = request@;
        self.clients[target].outbound_queue.push(request);
        self.clients[target].notify.notify_one();
        proof {
            assert(self.clients[target as int].model().queue =~= before.clients[target as int].queue.push(
                entry,
            ));
            assert(self@.clients =~= before.clients.update(
                target as int,
                before.clients[target as int].queued(entry),
            ));
            assert(self@.client_ids() =~= before.client_ids());
        }
        true
    }

    /// Takes every queued request of a client, oldest first, and records
    /// the pull at `now`. For an unknown client the result is empty and
    /// nothing changes.
    pub fn drain_outbound_at(&mut self, client_id: &str, now: i64) -> (r: Vec<BridgeToolRequest>)
        requires
            old(self)@.wf(),
        ensures
            r@.map_values(|q: BridgeToolRequest| q@) == old(self)@.outbound(client_id@),
            final(self)@ == old(self)@.drain(client_id@, now as int),
            final(self)@.wf(),
    {
        let ghost before = self@;
        let mut requests: Vec<BridgeToolRequest> = Vec::new();
        match self.find_client(client_id) {
            Some(i) => {
                self.clients[i].last_poll = now;
                std::mem::swap(&mut requests, &mut self.clients[i].outbound_queue);
                proof {
                    assert(self.clients[i as int].model().queue =~= Seq::empty());
                    assert(self@.clients =~= before.clients.update(
                        i as int,
                        before.clients[i as int].drained(now as int),
                    ));
                    assert(self@.client_ids() =~= before.client_ids());
                }
            },
            None => {
                proof {
                    assert(requests@.map_values(|q: BridgeToolRequest| q@) =~= Seq::empty());
                }
            },
        }
        requests
    }

    /// Takes every queued request of a client and records the pull at the
    /// current time.
    pub fn drain_outbound(&mut self, client_id: &str) -> (r: Vec<BridgeToolRequest>)
        requires
            old(self)@.wf(),
        ensures
            r@.map_values(|q: BridgeToolRequest| q@) == old(self)@.outbound(client_id@),
            exists|now: int| final(self)@ == old(self)@.drain(client_id@, now),
            final(self)@.wf(),
    {
        let now = now_millis();
        self.drain_outbound_at(client_id, now)
    }

    /// Another handle to the wakeup of a client, for a long poll to wait
    /// on.
    pub fn get_notify(&self, client_id: &str) -> (r: Option<Arc<Notify>>)
        ensures
            r is Some == self@.has_client(client_id@),
            r matches Some(wake) ==> wake == self@.client(client_id@).wake,
    {
        match self.find_client(client_id) {
            Some(i) => Some(share_wake(&self.clients[i].notify)),
            None => None,
        }
    }

    // ─── Pending Calls ────────────────────────────────────────

    /// The position of the reply slot stored under `request_id`.
    fn find_pending(&self, request_id: &str) -> (r: Option<usize>)
        ensures
            match r {
                Some(i) => i < self.pending_calls.len() && position(
                    self@.pending_ids(),
                    request_id@,
                ) == Some(i as int),
                None => position(self@.pending_ids(), request_id@) is None,
            },
    {
        let ghost ids = self@.pending_ids();
        let mut i: usize = 0;
        while i < self.pending_calls.len()
            invariant
                i <= self.pending_calls.len(),
                ids == self@.pending_ids(),
                ids.len() == self.pending_calls.len(),
                position(ids.subrange(0, i as int), request_id@) is None,
            decreases self.pending_calls.len() - i,
        {
            proof {
                assert(ids.subrange(0, i as int + 1).drop_last() =~= ids.subrange(0, i as int));
                assert(ids[i as int] == self.pending_calls[i as int].request_id@);
            }
            if self.pending_calls[i].request_id.as_str().eq(request_id) {
                proof {
                    lemma_position(ids, request_id@);
                    lemma_position(ids.subrange(0, i as int), request_id@);
                    let found = position(ids, request_id@);
                    assert(found is Some);
                    if found->0 < i {
                        assert(ids.subrange(0, i as int)[found->0] == ids[found->0]);
                    }
                }
                return Some(i);
            }
            i = i + 1;
        }
        proof {
            assert(ids.subrange(0, i as int) =~= ids);
        }
        None
    }

    /// Stores the reply slot of a request. A slot already stored under the
    /// id is replaced and thereby dropped.
    pub fn register_pending(&mut self, request_id: String, sender: Sender<BridgeToolResponse>)
        requires
            old(self)@.wf(),
        ensures
            final(self)@ == old(self)@.register_pending(request_id@, sender),
            final(self)@.wf(),
    {
        let found = self.find_pending(request_id.as_str());
        let fresh = PendingCall { request_id, reply_slot: sender };
        let ghost before = self@;
        let ghost ids = before.pending_ids();
        proof {
            lemma_position(ids, fresh.request_id@);
        }
        match found {
            Some(i) => {
                self.pending_calls[i] = fresh;
                proof {
                    assert(self@.pending =~= before.pending.update(i as int, fresh.model()));
                    assert(self@.pending_ids() =~= ids);
                }
            },
            None => {
                self.pending_calls.push(fresh);
                proof {
                    assert(self@.pending =~= before.pending.push(fresh.model()));
                    assert(self@.pending_ids() =~= ids.push(fresh.request_id@));
                }
            },
        }
    }

    /// Takes the reply slot of a request out of the table.
    pub fn take_pending(&mut self, request_id: &str) -> (r: Option<Sender<BridgeToolResponse>>)
        requires
            old(self)@.wf(),
        ensures
            r is Some == old(self)@.has_pending(request_id@),
            r matches Some(slot) ==> slot == old(self)@.pending[position(
                old(self)@.pending_ids(),
                request_id@,
            )->0].slot,
            final(self)@ == old(self)@.resolve(request_id@),
            final(self)@.wf(),
    {
        let ghost before = self@;
        match self.find_pending(request_id) {
            Some(i) => {
                let entry = self.pending_calls.remove(i);
                proof {
                    assert(self@.pending =~= before.pending.remove(i as int));
                    assert(self@.pending_ids() =~= before.pending_ids().remove(i as int));
                    assert(before.pending[i as int] == entry.model());
                }
                Some(entry.reply_slot)
            },
            None => None,
        }
    }

    /// Resolves a pending call: removes its reply slot and hands the
    /// response to it. The result tells whether a slot was stored under the
    /// id; without one nothing changes and the response is discarded.
    pub fn resolve_pending(&mut self, request_id: &str, response: BridgeToolResponse) -> (r: bool)
        requires
            old(self)@.wf(),
        ensures
            r == old(self)@.has_pending(request_id@),
            final(self)@ == old(self)@.resolve(request_id@),
            final(self)@.wf(),
    {
        match self.take_pending(request_id) {
            Some(slot) => {
                let _ = deliver(slot, response);
                true
            },
            None => false,
        }
    }

    /// The number of calls whose reply is awaited.
    pub fn pending_call_count(&self) -> (r: usize)
        ensures
            r == self@.pending.len(),
    {
        self.pending_calls.len()
    }

    // ─── Log Buffer ───────────────────────────────────────────

    /// Appends a log entry that arrived at `ts`, under the next sequence
    /// number. A full ring first gives up its oldest entry.
    pub fn push_log_at(
        &mut self,
        level: String,
        message: String,
        session_id: Option<String>,
        ts: i64,
    )
        requires
            old(self)@.wf(),
            old(self)@.log_seq < u64::MAX,
        ensures
            final(self)@ == old(self)@.push_log(level@, message@, opt_text(session_id), ts as int),
            final(self)@.wf(),
    {
        let ghost before = self@;
        self.log_seq = self.log_seq + 1;
        let entry = LogEntry { seq: self.log_seq, ts, level, message, session_id };
        if self.log_buffer.len() >= MAX_LOG_BUFFER {
            self.log_buffer.pop_front();
        }
        let ghost kept = self@.logs;
        self.log_buffer.push_back(entry);
        proof {
            if before.logs.len() >= MAX_LOG_BUFFER {
                assert(kept =~= before.logs.drop_first());
            } else {
                assert(kept =~= before.logs);
            }
            assert(self@.logs =~= kept.push(entry@));
            crate::model::lemma_push_log_wf(
                before,
                level@,
                message@,
                opt_text(session_id),
                ts as int,
            );
        }
    }

    /// Appends a log entry that arrives now.
    pub fn push_log(&mut self, level: String, message: String, session_id: Option<String>)
        requires
            old(self)@.wf(),
            old(self)@.log_seq < u64::MAX,
        ensures
            exists|ts: int|
                final(self)@ == old(self)@.push_log(level@, message@, opt_text(session_id), ts),
            final(self)@.wf(),
    {
        let ts = now_millis();
        self.push_log_at(level, message, session_id, ts);
    }

    /// Copies of the entries with a sequence number above `since_seq`,
    /// oldest first, at most `limit` of them.
    pub fn get_logs(&self, since_seq: u64, limit: usize) -> (r: Vec<LogEntry>)
        ensures
            r@.map_values(|e: LogEntry| e@) == self@.logs_since(since_seq as nat, limit as nat),
    {
        let ghost all = self@.logs;
        let mut out: Vec<LogEntry> = Vec::new();
        let mut i: usize = 0;
        while i < self.log_buffer.len()
            invariant
                i <= self.log_buffer.len(),
                all == self@.logs,
                all.len() == self.log_buffer.len(),
                logs_model(out@) == newer_entries(all.subrange(0, i as int), since_seq as nat),
            decreases self.log_buffer.len() - i,
        {
            proof {
                assert(all.subrange(0, i as int + 1).drop_last() =~= all.subrange(0, i as int));
                assert(all[i as int] == self.log_buffer[i as int]@);
            }
            if self.log_buffer[i].seq > since_seq {
                let entry = self.log_buffer[i].clone();
                proof {
                    assert(logs_model(out@.push(entry)) =~= logs_model(out@).push(entry@));
                }
                out.push(entry);
            }
            i = i + 1;
        }
        proof {
            assert(all.subrange(0, i as int) =~= all);
        }
        if out.len() > limit {
            let ghost full = out@;
            out.truncate(limit);
            proof {
                assert(logs_model(out@) =~= logs_model(full).subrange(0, limit as int));
            }
        }
        out
    }

    /// The sequence number of the newest log entry ever made; zero before
    /// the first.
    pub fn log_seq(&self) -> (r: u64)
        ensures
            r == self@.log_seq,
    {
        self.log_seq
    }

    /// The number of entries in the log ring.
    pub fn log_buffer_size(&self) -> (r: usize)
        ensures
            r == self@.logs.len(),
    {
        self.log_buffer.len()
    }

    // ─── Playtest State ───────────────────────────────────────

    /// Replaces the playtest snapshot.
    pub fn update_playtest(&mut self, active: bool, session_id: Option<String>, mode: Option<String>)
        ensures
            final(self)@ == old(self)@.update_playtest(active, opt_text(session_id), opt_text(mode)),
            final(self)@.wf() == old(self)@.wf(),
    {
        self.playtest_state.active = active;
        self.playtest_state.session_id = session_id;
        self.playtest_state.mode = mode;
    }

    /// Whether a playtest is running.
    pub fn is_playtest_active(&self) -> (r: bool)
        ensures
            r == self@.playtest.active,
    {
        self.playtest_state.active
    }

    /// The playtest snapshot: whether one is running, its session and its
    /// mode.
    pub fn playtest_info(&self) -> (r: (bool, Option<String>, Option<String>))
        ensures
            r.0 == self@.playtest.active,
            opt_text(r.1) == self@.playtest.session_id,
            opt_text(r.2) == self@.playtest.mode,
    {
        (
            self.playtest_state.active,
            copy_opt(&self.playtest_state.session_id),
            copy_opt(&self.playtest_state.mode),
        )
    }
}

} // verus!
