//! The bookkeeping of outbound OAuth flows: flows waiting for their browser
//! callback (by OAuth state), the flow active for each server, the states
//! whose OAuth session is kept, and recently completed flows. Times are
//! milliseconds on the caller's clock.

use vstd::prelude::*;

use dashmap::DashMap;

use crate::outbound::{
    add_resource_parameter, already_pending_message, begin_flow, callback_answer, callback_outcome,
    callback_outcome_spec, CallbackWait, handle_callback_result, route_callback,
    CallbackRoute, expired_at, extract_state_from_url, state_param,
    FlowStart, OAuthInitResult, OAuthTokenInfo,
};
use crate::text::owned;
use crate::uri::{url_query_pairs, url_with_query_pair};

verus! {

/// A pending flow lasts this long before it counts as abandoned.
pub const PENDING_FLOW_MILLIS: u64 = 600_000;

/// A completed flow is reported for this long.
pub const COMPLETED_FLOW_MILLIS: u64 = 300_000;

/// A flow waiting for its callback.
#[derive(Debug, Clone)]
pub struct PendingFlow {
    /// OAuth state parameter
    pub state: String,
    /// Space of the server
    pub space_id: u128,
    /// Server
    pub server_id: String,
    /// Server URL
    pub server_url: String,
    /// When the flow started
    pub started_at: u64,
}

/// A pending flow as plain values: space, server, server URL, start time.
pub type FlowSpec = (u128, Seq<char>, Seq<char>, u64);

/// A server key: space and server ID.
pub type ServerKey = (u128, Seq<char>);

/// A pending flow as plain values.
pub open spec fn pending_val() -> spec_fn(PendingFlow) -> FlowSpec {
    |f: PendingFlow| (f.space_id, f.server_id@, f.server_url@, f.started_at)
}

/// `dashmap::DashMap`, the concurrent map that holds the flow tables.
#[verifier::external_type_specification]
#[verifier::external_body]
#[verifier::reject_recursive_types(K)]
#[verifier::reject_recursive_types(V)]
#[verifier::reject_recursive_types(S)]
pub struct ExDashMap<K, V, S>(DashMap<K, V, S>);

/// What a table of pending flows holds: each state with its flow as plain
/// values.
pub uninterp spec fn pending_entries(m: DashMap<String, PendingFlow>) -> Map<Seq<char>, FlowSpec>;

/// What a table of active flows holds: each server with its flow's state.
pub uninterp spec fn active_entries(m: DashMap<(u128, String), String>) -> Map<ServerKey, Seq<char>>;

/// What a table of kept OAuth sessions holds: their states.
pub uninterp spec fn session_entries(m: DashMap<String, ()>) -> Set<Seq<char>>;

/// What a table of completed flows holds: each server with its completion time.
pub uninterp spec fn completed_entries(m: DashMap<(u128, String), u64>) -> Map<ServerKey, u64>;

/// `DashMap::new()` for pending flows: an empty table.
#[verifier::external_body]
fn new_pending_table() -> (m: DashMap<String, PendingFlow>)
    ensures
        pending_entries(m).dom() == Set::<Seq<char>>::empty(),
{
    DashMap::new()
}

/// `DashMap::get` on pending flows, the flow cloned out of the guard.
#[verifier::external_body]
fn pending_get(m: &DashMap<String, PendingFlow>, state: &str) -> (r: Option<PendingFlow>)
    ensures
        match r {
            Some(f) => pending_entries(*m).contains_key(state@) && pending_entries(*m)[state@] == pending_val()(f),
            None => !pending_entries(*m).contains_key(state@),
        },
{
    m.get(state).map(|e| e.value().clone())
}

/// `DashMap::insert` on pending flows: the state now maps to the flow.
#[verifier::external_body]
fn pending_insert(m: &mut DashMap<String, PendingFlow>, state: String, flow: PendingFlow)
    ensures
        pending_entries(*final(m)) == pending_entries(*old(m)).insert(state@, pending_val()(flow)),
{
    m.insert(state, flow);
}

/// `DashMap::remove` on pending flows, giving back the removed flow.
#[verifier::external_body]
fn pending_remove(m: &mut DashMap<String, PendingFlow>, state: &str) -> (r: Option<PendingFlow>)
    ensures
        pending_entries(*final(m)) == pending_entries(*old(m)).remove(state@),
        match r {
            Some(f) => pending_entries(*old(m)).contains_key(state@) && pending_entries(*old(m))[state@] == pending_val()(
                f,
            ),
            None => !pending_entries(*old(m)).contains_key(state@),
        },
{
    m.remove(state).map(|(_, f)| f)
}

/// `DashMap::new()` for active flows: an empty table.
#[verifier::external_body]
fn new_active_table() -> (m: DashMap<(u128, String), String>)
    ensures
        active_entries(m).dom() == Set::<ServerKey>::empty(),
{
    DashMap::new()
}

/// `DashMap::get` on active flows, the state cloned out of the guard.
#[verifier::external_body]
fn active_get(m: &DashMap<(u128, String), String>, space_id: u128, server_id: &str) -> (r: Option<String>)
    ensures
        match r {
            Some(s) => active_entries(*m).contains_key((space_id, server_id@)) && active_entries(*m)[(
                space_id,
                server_id@,
            )] == s@,
            None => !active_entries(*m).contains_key((space_id, server_id@)),
        },
{
    m.get(&(space_id, server_id.to_string())).map(|e| e.value().clone())
}

/// `DashMap::insert` on active flows: the server now maps to the state.
#[verifier::external_body]
fn active_insert(m: &mut DashMap<(u128, String), String>, space_id: u128, server_id: String, state: String)
    ensures
        active_entries(*final(m)) == active_entries(*old(m)).insert((space_id, server_id@), state@),
{
    m.insert((space_id, server_id), state);
}

/// `DashMap::remove` on active flows, giving back the removed state.
#[verifier::external_body]
fn active_remove(m: &mut DashMap<(u128, String), String>, space_id: u128, server_id: &str) -> (r: Option<String>)
    ensures
        active_entries(*final(m)) == active_entries(*old(m)).remove((space_id, server_id@)),
        match r {
            Some(s) => active_entries(*old(m)).contains_key((space_id, server_id@)) && active_entries(*old(m))[(
                space_id,
                server_id@,
            )] == s@,
            None => !active_entries(*old(m)).contains_key((space_id, server_id@)),
        },
{
    m.remove(&(space_id, server_id.to_string())).map(|(_, s)| s)
}

/// `DashMap::new()` for kept sessions: an empty table.
#[verifier::external_body]
fn new_session_table() -> (m: DashMap<String, ()>)
    ensures
        session_entries(m) == Set::<Seq<char>>::empty(),
{
    DashMap::new()
}

/// `DashMap::contains_key` on kept sessions.
#[verifier::external_body]
fn session_contains(m: &DashMap<String, ()>, state: &str) -> (r: bool)
    ensures
        r == session_entries(*m).contains(state@),
{
    m.contains_key(state)
}

/// `DashMap::insert` on kept sessions: the state is kept.
#[verifier::external_body]
fn session_insert(m: &mut DashMap<String, ()>, state: String)
    ensures
        session_entries(*final(m)) == session_entries(*old(m)).insert(state@),
{
    m.insert(state, ());
}

/// `DashMap::remove` on kept sessions: the state is no longer kept.
#[verifier::external_body]
fn session_remove(m: &mut DashMap<String, ()>, state: &str)
    ensures
        session_entries(*final(m)) == session_entries(*old(m)).remove(state@),
{
    m.remove(state);
}

/// `DashMap::new()` for completed flows: an empty table.
#[verifier::external_body]
fn new_completed_table() -> (m: DashMap<(u128, String), u64>)
    ensures
        completed_entries(m).dom() == Set::<ServerKey>::empty(),
{
    DashMap::new()
}

/// `DashMap::get` on completed flows, the time copied out of the guard.
#[verifier::external_body]
fn completed_get(m: &DashMap<(u128, String), u64>, space_id: u128, server_id: &str) -> (r: Option<u64>)
    ensures
        match r {
            Some(t) => completed_entries(*m).contains_key((space_id, server_id@)) && completed_entries(*m)[(
                space_id,
                server_id@,
            )] == t,
            None => !completed_entries(*m).contains_key((space_id, server_id@)),
        },
{
    m.get(&(space_id, server_id.to_string())).map(|e| *e.value())
}

/// `DashMap::insert` on completed flows: the server now maps to the time.
#[verifier::external_body]
fn completed_insert(m: &mut DashMap<(u128, String), u64>, space_id: u128, server_id: String, at: u64)
    ensures
        completed_entries(*final(m)) == completed_entries(*old(m)).insert((space_id, server_id@), at),
{
    m.insert((space_id, server_id), at);
}

/// `DashMap::remove` on completed flows, giving back the removed time.
#[verifier::external_body]
fn completed_remove(m: &mut DashMap<(u128, String), u64>, space_id: u128, server_id: &str) -> (r: Option<u64>)
    ensures
        completed_entries(*final(m)) == completed_entries(*old(m)).remove((space_id, server_id@)),
        match r {
            Some(t) => completed_entries(*old(m)).contains_key((space_id, server_id@)) && completed_entries(
                *old(m),
            )[(space_id, server_id@)] == t,
            None => !completed_entries(*old(m)).contains_key((space_id, server_id@)),
        },
{
    m.remove(&(space_id, server_id.to_string())).map(|(_, t)| t)
}

/// Milliseconds from `from` to `now`; zero when the clock went back.
pub open spec fn elapsed(from: u64, now: u64) -> int {
    if now >= from {
        now - from
    } else {
        0
    }
}

/// Whether the server's active flow is waiting for its callback and has not
/// run out of time.
pub open spec fn flow_pending(
    pending: Map<Seq<char>, FlowSpec>,
    active: Map<ServerKey, Seq<char>>,
    k: ServerKey,
    now: u64,
) -> bool {
    active.dom().contains(k) && pending.dom().contains(active[k]) && elapsed(pending[active[k]].3, now)
        < PENDING_FLOW_MILLIS
}

/// The registry of outbound OAuth flows.
#[derive(Debug)]
pub struct FlowRegistry {
    pending: DashMap<String, PendingFlow>,
    active: DashMap<(u128, String), String>,
    sessions: DashMap<String, ()>,
    completed: DashMap<(u128, String), u64>,
}

impl FlowRegistry {
    /// Flows waiting for their callback, by state.
    pub closed spec fn pending_view(&self) -> Map<Seq<char>, FlowSpec> {
        pending_entries(self.pending)
    }

    /// The state of the flow active for each server.
    pub closed spec fn active_view(&self) -> Map<ServerKey, Seq<char>> {
        active_entries(self.active)
    }

    /// The states whose OAuth session is kept.
    pub closed spec fn known_view(&self) -> Set<Seq<char>> {
        session_entries(self.sessions)
    }

    /// When each server's last flow completed.
    pub closed spec fn completed_view(&self) -> Map<ServerKey, u64> {
        completed_entries(self.completed)
    }

    /// An empty registry.
    pub fn new() -> (r: Self)
        ensures
            r.pending_view() == Map::<Seq<char>, FlowSpec>::empty(),
            r.active_view() == Map::<ServerKey, Seq<char>>::empty(),
            r.known_view() == Set::<Seq<char>>::empty(),
            r.completed_view() == Map::<ServerKey, u64>::empty(),
    {
        let r = FlowRegistry {
            pending: new_pending_table(),
            active: new_active_table(),
            sessions: new_session_table(),
            completed: new_completed_table(),
        };
        assert(r.pending_view() =~= Map::<Seq<char>, FlowSpec>::empty());
        assert(r.active_view() =~= Map::<ServerKey, Seq<char>>::empty());
        assert(r.completed_view() =~= Map::<ServerKey, u64>::empty());
        r
    }
}

/// Milliseconds from `from` to `now`; zero when the clock went back.
fn elapsed_millis(from: u64, now: u64) -> (r: u64)
    ensures
        r == elapsed(from, now),
{
    if now >= from {
        now - from
    } else {
        0
    }
}

impl FlowRegistry {
    /// Registers a flow waiting for the callback with `state`, as the active
    /// flow of its server, started at `now`.
    pub fn register_pending_flow(&mut self, state: String, space_id: u128, server_id: String, server_url: String, now: u64)
        ensures
            final(self).pending_view() == old(self).pending_view().insert(state@, (space_id, server_id@, server_url@, now)),
            final(self).active_view() == old(self).active_view().insert((space_id, server_id@), state@),
            final(self).known_view() == old(self).known_view(),
            final(self).completed_view() == old(self).completed_view(),
    {
        let flow = PendingFlow {
            state: owned(state.as_str()),
            space_id,
            server_id: owned(server_id.as_str()),
            server_url,
            started_at: now,
        };
        pending_insert(&mut self.pending, owned(state.as_str()), flow);
        active_insert(&mut self.active, space_id, server_id, state);
    }

    /// Keeps the OAuth session of a state (for the token exchange).
    pub fn record_oauth_state(&mut self, state: String)
        ensures
            final(self).known_view() == old(self).known_view().insert(state@),
            final(self).pending_view() == old(self).pending_view(),
            final(self).active_view() == old(self).active_view(),
            final(self).completed_view() == old(self).completed_view(),
    {
        session_insert(&mut self.sessions, state);
    }

    /// Whether a flow for the server is waiting for its callback (for less
    /// than ten minutes); an abandoned one is dropped with its session.
    pub fn is_pending(&mut self, space_id: u128, server_id: &str, now: u64) -> (r: bool)
        ensures
            r == flow_pending(old(self).pending_view(), old(self).active_view(), (space_id, server_id@), now),
            r ==> final(self).pending_view() == old(self).pending_view() && final(self).active_view()
                == old(self).active_view() && final(self).known_view() == old(self).known_view(),
            !r && old(self).active_view().dom().contains((space_id, server_id@)) ==> {
                let s = old(self).active_view()[(space_id, server_id@)];
                &&& final(self).active_view() == old(self).active_view().remove((space_id, server_id@))
                &&& final(self).pending_view() == old(self).pending_view().remove(s)
                &&& final(self).known_view() == old(self).known_view().remove(s)
            },
            !r && !old(self).active_view().dom().contains((space_id, server_id@)) ==> final(self).pending_view()
                == old(self).pending_view() && final(self).active_view() == old(self).active_view()
                && final(self).known_view() == old(self).known_view(),
            final(self).completed_view() == old(self).completed_view(),
    {
        let state = match active_get(&self.active, space_id, server_id) {
            Some(s) => s,
            None => {
                return false;
            },
        };
        match pending_get(&self.pending, state.as_str()) {
            Some(f) => {
                if elapsed_millis(f.started_at, now) < PENDING_FLOW_MILLIS {
                    return true;
                }
            },
            None => {},
        }
        let _ = active_remove(&mut self.active, space_id, server_id);
        let _ = pending_remove(&mut self.pending, state.as_str());
        session_remove(&mut self.sessions, state.as_str());
        false
    }

    /// The space and server URL of the flow pending for a server.
    pub fn get_pending_context(&self, space_id: u128, server_id: &str) -> (r: Option<(u128, String)>)
        ensures
            match r {
                Some((sp, url)) => self.active_view().dom().contains((space_id, server_id@)) && self.pending_view().dom().contains(
                    self.active_view()[(space_id, server_id@)],
                ) && sp == self.pending_view()[self.active_view()[(space_id, server_id@)]].0 && url@
                    == self.pending_view()[self.active_view()[(space_id, server_id@)]].2,
                None => !(self.active_view().dom().contains((space_id, server_id@)) && self.pending_view().dom().contains(
                    self.active_view()[(space_id, server_id@)],
                )),
            },
    {
        let state = match active_get(&self.active, space_id, server_id) {
            Some(s) => s,
            None => {
                return None;
            },
        };
        match pending_get(&self.pending, state.as_str()) {
            Some(f) => Some((f.space_id, f.server_url)),
            None => None,
        }
    }

    /// Records that the server's flow completed at `now`.
    pub fn mark_completed(&mut self, space_id: u128, server_id: String, now: u64)
        ensures
            final(self).completed_view() == old(self).completed_view().insert((space_id, server_id@), now),
            final(self).pending_view() == old(self).pending_view(),
            final(self).active_view() == old(self).active_view(),
            final(self).known_view() == old(self).known_view(),
    {
        completed_insert(&mut self.completed, space_id, server_id, now);
    }

    /// Whether the server's flow completed within five minutes of `now`; the
    /// completion is consumed.
    pub fn take_completed(&mut self, space_id: u128, server_id: &str, now: u64) -> (r: bool)
        ensures
            r == (old(self).completed_view().dom().contains((space_id, server_id@)) && elapsed(
                old(self).completed_view()[(space_id, server_id@)],
                now,
            ) < COMPLETED_FLOW_MILLIS),
            final(self).completed_view() == old(self).completed_view().remove((space_id, server_id@)),
            final(self).pending_view() == old(self).pending_view(),
            final(self).active_view() == old(self).active_view(),
            final(self).known_view() == old(self).known_view(),
    {
        match completed_remove(&mut self.completed, space_id, server_id) {
            Some(t) => elapsed_millis(t, now) < COMPLETED_FLOW_MILLIS,
            None => false,
        }
    }

    /// Whether the server's flow completed within five minutes of `now`.
    pub fn has_completed(&self, space_id: u128, server_id: &str, now: u64) -> (r: bool)
        ensures
            r == (self.completed_view().dom().contains((space_id, server_id@)) && elapsed(
                self.completed_view()[(space_id, server_id@)],
                now,
            ) < COMPLETED_FLOW_MILLIS),
    {
        match completed_get(&self.completed, space_id, server_id) {
            Some(t) => elapsed_millis(t, now) < COMPLETED_FLOW_MILLIS,
            None => false,
        }
    }

    /// Cancels the server's active flow: its pending entry and session go,
    /// so a fresh flow can start.
    pub fn cancel_flow(&mut self, space_id: u128, server_id: &str)
        ensures
            final(self).active_view() == old(self).active_view().remove((space_id, server_id@)),
            old(self).active_view().dom().contains((space_id, server_id@)) ==> {
                let s = old(self).active_view()[(space_id, server_id@)];
                &&& final(self).pending_view() == old(self).pending_view().remove(s)
                &&& final(self).known_view() == old(self).known_view().remove(s)
            },
            !old(self).active_view().dom().contains((space_id, server_id@)) ==> final(self).pending_view()
                == old(self).pending_view() && final(self).known_view() == old(self).known_view(),
            final(self).completed_view() == old(self).completed_view(),
    {
        match active_remove(&mut self.active, space_id, server_id) {
            Some(state) => {
                let _ = pending_remove(&mut self.pending, state.as_str());
                session_remove(&mut self.sessions, state.as_str());
            },
            None => {},
        }
    }

    /// Cancels the server's active flow and forgets its completion.
    pub fn cancel_flow_for_space(&mut self, space_id: u128, server_id: &str)
        ensures
            final(self).active_view() == old(self).active_view().remove((space_id, server_id@)),
            final(self).completed_view() == old(self).completed_view().remove((space_id, server_id@)),
            old(self).active_view().dom().contains((space_id, server_id@)) ==> {
                let s = old(self).active_view()[(space_id, server_id@)];
                &&& final(self).pending_view() == old(self).pending_view().remove(s)
                &&& final(self).known_view() == old(self).known_view().remove(s)
            },
            !old(self).active_view().dom().contains((space_id, server_id@)) ==> final(self).pending_view()
                == old(self).pending_view() && final(self).known_view() == old(self).known_view(),
    {
        self.cancel_flow(space_id, server_id);
        let _ = completed_remove(&mut self.completed, space_id, server_id);
    }

    /// Takes the flow waiting for the callback with `state`: a callback is
    /// routed at most once.
    pub fn take_pending(&mut self, state: &str) -> (r: Option<PendingFlow>)
        ensures
            final(self).pending_view() == old(self).pending_view().remove(state@),
            match r {
                Some(f) => old(self).pending_view().dom().contains(state@) && f.state@ == state@ && pending_val()(f)
                    == old(self).pending_view()[state@],
                None => !old(self).pending_view().dom().contains(state@),
            },
            final(self).active_view() == old(self).active_view(),
            final(self).known_view() == old(self).known_view(),
            final(self).completed_view() == old(self).completed_view(),
    {
        match pending_remove(&mut self.pending, state) {
            Some(f) => Some(
                PendingFlow {
                    state: owned(state),
                    space_id: f.space_id,
                    server_id: f.server_id,
                    server_url: f.server_url,
                    started_at: f.started_at,
                },
            ),
            None => None,
        }
    }

    /// Whether an OAuth session is kept for a state.
    pub fn is_known_state(&self, state: &str) -> (r: bool)
        ensures
            r == self.known_view().contains(state@),
    {
        session_contains(&self.sessions, state)
    }

    /// The end of a flow's callback task: its session and the server's
    /// active flow are dropped.
    pub fn finish_flow(&mut self, state: &str, space_id: u128, server_id: &str)
        ensures
            final(self).known_view() == old(self).known_view().remove(state@),
            final(self).active_view() == old(self).active_view().remove((space_id, server_id@)),
            final(self).pending_view() == old(self).pending_view(),
            final(self).completed_view() == old(self).completed_view(),
    {
        session_remove(&mut self.sessions, state);
        let _ = active_remove(&mut self.active, space_id, server_id);
    }
}

/// The authorization URL with the `resource` parameter added, as
/// `add_resource_parameter` gives it.
pub open spec fn with_resource(auth_url: Seq<char>, server_url: Seq<char>) -> Seq<char> {
    match url_with_query_pair(auth_url, "resource"@, server_url) {
        Some(u) => u,
        None => auth_url,
    }
}

impl FlowRegistry {
    /// How `start_oauth_flow` begins on the registry: a flow still pending
    /// for the server (at `now`) refuses the request with the in-progress
    /// error and stays as it was; otherwise (an abandoned flow is dropped
    /// first) the start decision over the stored token, its expiry judged
    /// at `token_now`.
    pub fn begin_oauth_flow(
        &mut self,
        space_id: u128,
        server_id: &str,
        stored: Option<&OAuthTokenInfo>,
        now: u64,
        token_now: i64,
    ) -> (r: Result<FlowStart, String>)
        ensures
            flow_pending(old(self).pending_view(), old(self).active_view(), (space_id, server_id@), now) ==> {
                &&& r matches Err(m) && m@ == already_pending_message(space_id, server_id@)
                &&& final(self).pending_view() == old(self).pending_view()
                &&& final(self).active_view() == old(self).active_view()
                &&& final(self).known_view() == old(self).known_view()
                &&& flow_pending(final(self).pending_view(), final(self).active_view(), (space_id, server_id@), now)
            },
            !flow_pending(old(self).pending_view(), old(self).active_view(), (space_id, server_id@), now) ==> {
                &&& r == Ok::<FlowStart, String>(
                    if stored matches Some(t) && (!expired_at(t.expires_at, token_now) || t.refresh_token is Some) {
                        FlowStart::TryStoredToken
                    } else {
                        FlowStart::Fresh
                    },
                )
                &&& !flow_pending(final(self).pending_view(), final(self).active_view(), (space_id, server_id@), now)
            },
            final(self).completed_view() == old(self).completed_view(),
    {
        let pending = self.is_pending(space_id, server_id, now);
        begin_flow(pending, stored, token_now, space_id, server_id)
    }

    /// Registers a flow once its authorization URL is known: the URL gets
    /// the `resource` parameter naming the server, its `state` parameter
    /// keys the pending flow (active for the server, started at `now`) and
    /// the kept session. Without a `state` parameter nothing is registered
    /// and the flow fails.
    pub fn register_started_flow(
        &mut self,
        auth_url: &str,
        space_id: u128,
        server_id: String,
        server_url: String,
        now: u64,
    ) -> (r: Result<OAuthInitResult, String>)
        ensures
            match url_query_pairs(with_resource(auth_url@, server_url@)) {
                Some(pairs) => state_param(pairs) is Some,
                None => false,
            } ==> {
                let url = with_resource(auth_url@, server_url@);
                let state = state_param(url_query_pairs(url)->0)->0;
                &&& r matches Ok(OAuthInitResult::Initiated { auth_url: u }) && u@ == url
                &&& url_with_query_pair(auth_url@, "resource"@, server_url@) is Some ==> url_query_pairs(url)->0.contains(
                    ("resource"@, server_url@),
                )
                &&& final(self).pending_view() == old(self).pending_view().insert(
                    state,
                    (space_id, server_id@, server_url@, now),
                )
                &&& final(self).active_view() == old(self).active_view().insert((space_id, server_id@), state)
                &&& final(self).known_view() == old(self).known_view().insert(state)
                &&& flow_pending(final(self).pending_view(), final(self).active_view(), (space_id, server_id@), now)
                &&& final(self).pending_view()[final(self).active_view()[(space_id, server_id@)]].0 == space_id
                &&& final(self).pending_view()[final(self).active_view()[(space_id, server_id@)]].2 == server_url@
            },
            !match url_query_pairs(with_resource(auth_url@, server_url@)) {
                Some(pairs) => state_param(pairs) is Some,
                None => false,
            } ==> {
                &&& r matches Err(m) && m@ == "Failed to extract state from auth URL"@
                &&& final(self).pending_view() == old(self).pending_view()
                &&& final(self).active_view() == old(self).active_view()
                &&& final(self).known_view() == old(self).known_view()
            },
            final(self).completed_view() == old(self).completed_view(),
    {
        let url = add_resource_parameter(auth_url, server_url.as_str());
        let state = match extract_state_from_url(url.as_str()) {
            Some(s) => s,
            None => {
                return Err(owned("Failed to extract state from auth URL"));
            },
        };
        self.register_pending_flow(owned(state.as_str()), space_id, server_id, server_url, now);
        self.record_oauth_state(state);
        Ok(OAuthInitResult::Initiated { auth_url: url })
    }
}

/// The result a routed callback is answered with.
pub open spec fn answered(r: Result<(), String>, route: CallbackRoute) -> bool {
    match r {
        Ok(()) => callback_answer(route) == Ok::<(), Seq<char>>(()),
        Err(m) => callback_answer(route) == Err::<(), Seq<char>>(m@),
    }
}

impl FlowRegistry {
    /// Routes a browser callback by its state: the pending flow with that
    /// state is taken (a callback is routed at most once) and handed to
    /// `deliver`, which tells whether its waiting task took it; without a
    /// pending flow the answer says whether the state was seen before.
    pub fn handle_callback<F: FnOnce(PendingFlow) -> bool>(&mut self, state: &str, deliver: F) -> (r: Result<(), String>)
        requires
            forall|f: PendingFlow| deliver.requires((f,)),
        ensures
            final(self).pending_view() == old(self).pending_view().remove(state@),
            final(self).active_view() == old(self).active_view(),
            final(self).known_view() == old(self).known_view(),
            final(self).completed_view() == old(self).completed_view(),
            old(self).pending_view().dom().contains(state@) ==> exists|f: PendingFlow, delivered: bool|
                #[trigger] deliver.ensures((f,), delivered) && f.state@ == state@ && pending_val()(f)
                    == old(self).pending_view()[state@] && answered(
                    r,
                    if delivered {
                        CallbackRoute::Delivered
                    } else {
                        CallbackRoute::TaskGone
                    },
                ),
            !old(self).pending_view().dom().contains(state@) ==> answered(
                r,
                if old(self).known_view().contains(state@) {
                    CallbackRoute::AlreadyProcessed
                } else {
                    CallbackRoute::Unknown
                },
            ),
    {
        let route = match self.take_pending(state) {
            Some(f) => {
                let delivered = deliver(f);
                route_callback(Some(delivered), false)
            },
            None => {
                let known = self.is_known_state(state);
                route_callback(None, known)
            },
        };
        handle_callback_result(route)
    }
}

/// The end of an OAuth flow, as reported to those waiting for it.
#[derive(Debug, Clone)]
pub struct OAuthCompleteEvent {
    /// Space of the server
    pub space_id: u128,
    /// Server
    pub server_id: String,
    /// Whether the flow authorized the server
    pub success: bool,
    /// Why it did not
    pub error: Option<String>,
}

/// A failed end of a flow with this message.
pub open spec fn failed_event(e: OAuthCompleteEvent, space_id: u128, server_id: Seq<char>, m: Seq<char>) -> bool {
    &&& e.space_id == space_id
    &&& e.server_id@ == server_id
    &&& !e.success
    &&& e.error matches Some(x) && x@ == m
}

/// What a flow's waiting task does next.
#[derive(Debug)]
pub enum CallbackStep {
    /// Exchange this authorization code for tokens
    Exchange { code: String },
    /// The flow ended: report this
    Done(OAuthCompleteEvent),
}

impl FlowRegistry {
    /// The waiting task of the flow with `state` got `wait`: with an
    /// authorization code and its session kept, the code is exchanged next;
    /// a session that is gone, an error the server reported, or a missing
    /// code ends the flow at once (leaving the registry as it is); a
    /// cancelled or timed out flow ends, and its session and the server's
    /// active flow are dropped.
    pub fn on_callback_wait(
        &mut self,
        state: &str,
        space_id: u128,
        server_id: &str,
        wait: CallbackWait,
        timeout_secs: u64,
    ) -> (r: CallbackStep)
        ensures
            final(self).pending_view() == old(self).pending_view(),
            final(self).completed_view() == old(self).completed_view(),
            match callback_outcome_spec(wait, timeout_secs) {
                Ok(code) => {
                    &&& final(self).known_view() == old(self).known_view()
                    &&& final(self).active_view() == old(self).active_view()
                    &&& if old(self).known_view().contains(state@) {
                        r matches CallbackStep::Exchange { code: c } && c@ == code
                    } else {
                        r matches CallbackStep::Done(e) && failed_event(e, space_id, server_id@, "OAuth state not found"@)
                    }
                },
                Err(m) => {
                    &&& r matches CallbackStep::Done(e) && failed_event(e, space_id, server_id@, m)
                    &&& wait is Received ==> final(self).known_view() == old(self).known_view()
                        && final(self).active_view() == old(self).active_view()
                    &&& !(wait is Received) ==> final(self).known_view() == old(self).known_view().remove(state@)
                        && final(self).active_view() == old(self).active_view().remove((space_id, server_id@))
                },
            },
    {
        let received = match &wait {
            CallbackWait::Received(_) => true,
            _ => false,
        };
        match callback_outcome(wait, timeout_secs) {
            Ok(code) => {
                if self.is_known_state(state) {
                    CallbackStep::Exchange { code }
                } else {
                    CallbackStep::Done(
                        OAuthCompleteEvent {
                            space_id,
                            server_id: owned(server_id),
                            success: false,
                            error: Some(owned("OAuth state not found")),
                        },
                    )
                }
            },
            Err(m) => {
                if !received {
                    self.finish_flow(state, space_id, server_id);
                }
                CallbackStep::Done(OAuthCompleteEvent { space_id, server_id: owned(server_id), success: false, error: Some(m) })
            },
        }
    }

    /// The token exchange of the flow with `state` came back: on success the
    /// server's flow counts as completed at `now` and the flow succeeds;
    /// otherwise it fails with "Token exchange failed: ...". Either way the
    /// session and the server's active flow are dropped.
    pub fn on_token_exchange(
        &mut self,
        state: &str,
        space_id: u128,
        server_id: &str,
        exchange: Result<(), String>,
        now: u64,
    ) -> (r: OAuthCompleteEvent)
        ensures
            final(self).pending_view() == old(self).pending_view(),
            final(self).known_view() == old(self).known_view().remove(state@),
            final(self).active_view() == old(self).active_view().remove((space_id, server_id@)),
            match exchange {
                Ok(()) => {
                    &&& final(self).completed_view() == old(self).completed_view().insert((space_id, server_id@), now)
                    &&& r.space_id == space_id && r.server_id@ == server_id@ && r.success && r.error is None
                },
                Err(e) => {
                    &&& final(self).completed_view() == old(self).completed_view()
                    &&& failed_event(r, space_id, server_id@, "Token exchange failed: "@ + e@)
                },
            },
    {
        let event = match exchange {
            Ok(()) => {
                self.mark_completed(space_id, owned(server_id), now);
                OAuthCompleteEvent { space_id, server_id: owned(server_id), success: true, error: None }
            },
            Err(e) => {
                let mut m = owned("Token exchange failed: ");
                m.append(e.as_str());
                OAuthCompleteEvent { space_id, server_id: owned(server_id), success: false, error: Some(m) }
            },
        };
        self.finish_flow(state, space_id, server_id);
        event
    }
}

/// A flow just registered for a server is pending for it until ten minutes
/// have passed.
pub proof fn law_registered_flow_is_pending(
    pending: Map<Seq<char>, FlowSpec>,
    active: Map<ServerKey, Seq<char>>,
    state: Seq<char>,
    space_id: u128,
    server_id: Seq<char>,
    server_url: Seq<char>,
    started_at: u64,
    now: u64,
)
    requires
        elapsed(started_at, now) < PENDING_FLOW_MILLIS,
    ensures
        flow_pending(
            pending.insert(state, (space_id, server_id, server_url, started_at)),
            active.insert((space_id, server_id), state),
            (space_id, server_id),
            now,
        ),
{
}

/// A flow is never pending once ten minutes have passed since it started.
pub proof fn law_abandoned_flow_not_pending(
    pending: Map<Seq<char>, FlowSpec>,
    active: Map<ServerKey, Seq<char>>,
    k: ServerKey,
    now: u64,
)
    requires
        active.dom().contains(k),
        pending.dom().contains(active[k]),
        elapsed(pending[active[k]].3, now) >= PENDING_FLOW_MILLIS,
    ensures
        !flow_pending(pending, active, k, now),
{
}

/// After a server's flow is cancelled no flow is pending for it, whatever
/// the time.
pub proof fn law_cancelled_flow_not_pending(
    pending: Map<Seq<char>, FlowSpec>,
    active: Map<ServerKey, Seq<char>>,
    k: ServerKey,
    now: u64,
)
    ensures
        !flow_pending(pending, active.remove(k), k, now),
{
}

/// A callback's state is consumed by routing: routing the same state again
/// finds no flow.
pub proof fn law_callback_routed_once(pending: Map<Seq<char>, FlowSpec>, state: Seq<char>)
    ensures
        !pending.remove(state).dom().contains(state),
{
}

} // verus!
