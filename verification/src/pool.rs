//! Bookkeeping of the connection pool: instance state and statistics,
//! instance keys, connection results, bulk reconnection and the detection
//! of authentication errors.

use vstd::prelude::*;

use crate::event::{DiscoveredCapabilities, DomainEvent};
use crate::outbound::OAuthInitResult;
use crate::text::{all_ascii, ascii_lower_seq, has_substring, is_prefix, owned, str_contains, str_starts_with, to_lowercase, unicode_lowercase};
use crate::feature::join2;

verus! {

/// The words whose presence (ignoring case) marks an error as an
/// authentication failure.
pub open spec fn auth_indicators() -> Seq<Seq<char>> {
    seq!["401"@, "unauthorized"@, "invalid_token"@, "token expired"@, "access token"@]
}

/// An error message that reports an authentication or authorization failure.
pub open spec fn auth_error(s: Seq<char>) -> bool {
    exists|i: int| 0 <= i < auth_indicators().len() && has_substring(unicode_lowercase(s), #[trigger] auth_indicators()[i])
}

/// An error message is an authentication error exactly when its lowercase
/// form mentions "401", "unauthorized", "invalid_token", "token expired" or
/// "access token".
pub proof fn law_auth_error_indicators(s: Seq<char>)
    ensures
        auth_error(s) <==> {
            let l = unicode_lowercase(s);
            ||| has_substring(l, "401"@)
            ||| has_substring(l, "unauthorized"@)
            ||| has_substring(l, "invalid_token"@)
            ||| has_substring(l, "token expired"@)
            ||| has_substring(l, "access token"@)
        },
{
    let ind = auth_indicators();
    let l = unicode_lowercase(s);
    if auth_error(s) {
        let i = choose|i: int| 0 <= i < ind.len() && has_substring(l, #[trigger] ind[i]);
        if i == 0 {} else if i == 1 {} else if i == 2 {} else if i == 3 {} else {}
    }
    if has_substring(l, "401"@) {
        assert(has_substring(l, ind[0]));
    } else if has_substring(l, "unauthorized"@) {
        assert(has_substring(l, ind[1]));
    } else if has_substring(l, "invalid_token"@) {
        assert(has_substring(l, ind[2]));
    } else if has_substring(l, "token expired"@) {
        assert(has_substring(l, ind[3]));
    } else if has_substring(l, "access token"@) {
        assert(has_substring(l, ind[4]));
    }
}

/// `auth_error` on ASCII text: its ASCII lowercase form mentions one of the
/// indicators.
pub open spec fn auth_error_ascii(s: Seq<char>) -> bool {
    exists|i: int| 0 <= i < auth_indicators().len() && has_substring(ascii_lower_seq(s), #[trigger] auth_indicators()[i])
}

/// Whether an error message reports an authentication or authorization
/// failure: its lowercase form mentions 401, unauthorized, invalid_token,
/// token expired or access token.
pub fn is_auth_error(error_str: &str) -> (b: bool)
    ensures
        b == auth_error(error_str@),
        all_ascii(error_str@) ==> b == auth_error_ascii(error_str@),
{
    let lower = to_lowercase(error_str);
    let l = lower.as_str();
    let r = str_contains(l, "401") || str_contains(l, "unauthorized") || str_contains(l, "invalid_token")
        || str_contains(l, "token expired") || str_contains(l, "access token");
    proof {
        let ind = auth_indicators();
        if r {
            if has_substring(lower@, "401"@) {
                assert(has_substring(unicode_lowercase(error_str@), ind[0]));
            } else if has_substring(lower@, "unauthorized"@) {
                assert(has_substring(unicode_lowercase(error_str@), ind[1]));
            } else if has_substring(lower@, "invalid_token"@) {
                assert(has_substring(unicode_lowercase(error_str@), ind[2]));
            } else if has_substring(lower@, "token expired"@) {
                assert(has_substring(unicode_lowercase(error_str@), ind[3]));
            } else {
                assert(has_substring(unicode_lowercase(error_str@), ind[4]));
            }
        } else {
            assert forall|i: int| 0 <= i < ind.len() implies !has_substring(unicode_lowercase(error_str@), #[trigger] ind[i]) by {
                if i == 0 {} else if i == 1 {} else if i == 2 {} else if i == 3 {} else {}
            }
        }
    }
    r
}

/// Connection state of a server instance.
#[derive(Debug, Clone, Copy, PartialEq, Eq, Structural)]
pub enum InstanceState {
    /// Not connected
    Disconnected,
    /// Connecting
    Connecting,
    /// Connected and ready
    Connected,
    /// Connection failed
    Failed,
    /// OAuth flow in progress
    OAuthPending,
}

/// Statistics of a server instance. Times are in seconds since the UNIX
/// epoch.
#[derive(Debug, Clone)]
pub struct InstanceStats {
    /// Current state
    pub state: InstanceState,
    /// When the instance connected (if connected)
    pub connected_at: Option<u64>,
    /// Last connection attempt
    pub last_attempt: Option<u64>,
    /// Consecutive failures
    pub consecutive_failures: u32,
    /// Total requests served
    pub requests_served: u64,
    /// Last error message
    pub last_error: Option<String>,
}

impl Default for InstanceStats {
    fn default() -> (r: Self)
        ensures
            r.state == InstanceState::Disconnected,
            r.connected_at is None && r.last_attempt is None,
            r.consecutive_failures == 0 && r.requests_served == 0,
            r.last_error is None,
    {
        InstanceStats {
            state: InstanceState::Disconnected,
            connected_at: None,
            last_attempt: None,
            consecutive_failures: 0,
            requests_served: 0,
            last_error: None,
        }
    }
}

impl InstanceStats {
    /// A connection attempt starts at `now`.
    pub fn mark_connecting(&mut self, now: u64)
        ensures
            final(self).state == InstanceState::Connecting,
            final(self).last_attempt == Some(now),
            final(self).connected_at == old(self).connected_at,
            final(self).consecutive_failures == old(self).consecutive_failures,
            final(self).requests_served == old(self).requests_served,
            final(self).last_error == old(self).last_error,
    {
        self.state = InstanceState::Connecting;
        self.last_attempt = Some(now);
    }

    /// The instance connected at `now`: failures and the last error are
    /// cleared.
    pub fn mark_connected(&mut self, now: u64)
        ensures
            final(self).state == InstanceState::Connected,
            final(self).connected_at == Some(now),
            final(self).consecutive_failures == 0,
            final(self).last_error is None,
            final(self).last_attempt == old(self).last_attempt,
            final(self).requests_served == old(self).requests_served,
    {
        self.state = InstanceState::Connected;
        self.connected_at = Some(now);
        self.consecutive_failures = 0;
        self.last_error = None;
    }

    /// The connection failed with `error`.
    pub fn mark_failed(&mut self, error: String)
        requires
            old(self).consecutive_failures < u32::MAX,
        ensures
            final(self).state == InstanceState::Failed,
            final(self).consecutive_failures == old(self).consecutive_failures + 1,
            final(self).last_error == Some(error),
            final(self).connected_at == old(self).connected_at,
            final(self).last_attempt == old(self).last_attempt,
            final(self).requests_served == old(self).requests_served,
    {
        self.state = InstanceState::Failed;
        self.consecutive_failures = self.consecutive_failures + 1;
        self.last_error = Some(error);
    }

    /// An OAuth flow is in progress.
    pub fn mark_oauth_pending(&mut self)
        ensures
            final(self).state == InstanceState::OAuthPending,
            final(self).connected_at == old(self).connected_at,
            final(self).last_attempt == old(self).last_attempt,
            final(self).consecutive_failures == old(self).consecutive_failures,
            final(self).requests_served == old(self).requests_served,
            final(self).last_error == old(self).last_error,
    {
        self.state = InstanceState::OAuthPending;
    }

    /// A request was served.
    pub fn record_success(&mut self)
        requires
            old(self).requests_served < u64::MAX,
        ensures
            final(self).requests_served == old(self).requests_served + 1,
            final(self).state == old(self).state,
            final(self).connected_at == old(self).connected_at,
            final(self).last_attempt == old(self).last_attempt,
            final(self).consecutive_failures == old(self).consecutive_failures,
            final(self).last_error == old(self).last_error,
    {
        self.requests_served = self.requests_served + 1;
    }

    /// A request failed with `error`; the state is kept.
    pub fn record_failure(&mut self, error: &str)
        requires
            old(self).consecutive_failures < u32::MAX,
        ensures
            final(self).consecutive_failures == old(self).consecutive_failures + 1,
            final(self).last_error matches Some(e) && e@ == error@,
            final(self).state == old(self).state,
            final(self).connected_at == old(self).connected_at,
            final(self).last_attempt == old(self).last_attempt,
            final(self).requests_served == old(self).requests_served,
    {
        self.consecutive_failures = self.consecutive_failures + 1;
        self.last_error = Some(owned(error));
    }
}

/// Identifies a server instance for logging: its space and a description
/// "transport:target".
#[derive(Debug, Clone, PartialEq, Eq, Hash)]
pub struct InstanceKey {
    /// Space that owns the instance
    pub space_id: u128,
    /// Description, e.g. "http:https://mcp.example.com"
    pub description: String,
}

impl InstanceKey {
    /// The key of a stdio instance: "stdio:" and the command.
    pub fn stdio(space_id: u128, command: &str) -> (k: Self)
        ensures
            k.space_id == space_id,
            k.description@ == "stdio:"@ + command@,
    {
        InstanceKey { space_id, description: join2("stdio:", command) }
    }

    /// The key of an HTTP instance: "http:" and the URL.
    pub fn http(space_id: u128, url: &str) -> (k: Self)
        ensures
            k.space_id == space_id,
            k.description@ == "http:"@ + url@,
    {
        InstanceKey { space_id, description: join2("http:", url) }
    }

    /// The server URL of an HTTP or SSE instance: the description after
    /// "http:" or "sse:"; none for stdio.
    pub fn get_url(&self) -> (r: Option<String>)
        ensures
            match r {
                Some(u) => (is_prefix("http:"@, self.description@) && u@ == self.description@.skip(5))
                    || (!is_prefix("http:"@, self.description@) && is_prefix("sse:"@, self.description@)
                    && u@ == self.description@.skip(4)),
                None => !is_prefix("http:"@, self.description@) && !is_prefix("sse:"@, self.description@),
            },
    {
        let d = self.description.as_str();
        proof {
            reveal_strlit("http:");
            reveal_strlit("sse:");
        }
        if str_starts_with(d, "http:") {
            Some(d.substring_char(5, d.unicode_len()).to_string())
        } else if str_starts_with(d, "sse:") {
            Some(d.substring_char(4, d.unicode_len()).to_string())
        } else {
            None
        }
    }
}

/// Counts of pool instances by state.
#[derive(Debug, Clone, Copy, PartialEq, Eq, Structural)]
pub struct PoolStats {
    /// All instances
    pub total_instances: usize,
    /// Connected instances
    pub connected_instances: usize,
    /// Connecting instances
    pub connecting_instances: usize,
    /// Failed instances
    pub failed_instances: usize,
    /// Instances waiting for OAuth
    pub oauth_pending_instances: usize,
}

impl Default for PoolStats {
    fn default() -> (r: Self)
        ensures
            r.total_instances == 0 && r.connected_instances == 0 && r.connecting_instances == 0
                && r.failed_instances == 0 && r.oauth_pending_instances == 0,
    {
        PoolStats {
            total_instances: 0,
            connected_instances: 0,
            connecting_instances: 0,
            failed_instances: 0,
            oauth_pending_instances: 0,
        }
    }
}

/// How many of the states equal `s`.
pub open spec fn count_state(states: Seq<InstanceState>, s: InstanceState) -> nat
    decreases states.len(),
{
    if states.len() == 0 {
        0
    } else {
        count_state(states.drop_last(), s) + if states.last() == s {
            1nat
        } else {
            0nat
        }
    }
}

/// The statistics of a pool whose instances are in the given states.
pub fn pool_stats(states: &[InstanceState]) -> (r: PoolStats)
    ensures
        r.total_instances == states@.len(),
        r.connected_instances == count_state(states@, InstanceState::Connected),
        r.connecting_instances == count_state(states@, InstanceState::Connecting),
        r.failed_instances == count_state(states@, InstanceState::Failed),
        r.oauth_pending_instances == count_state(states@, InstanceState::OAuthPending),
{
    let mut stats = PoolStats::default();
    let mut i: usize = 0;
    while i < states.len()
        invariant
            i <= states@.len(),
            stats.total_instances == i,
            stats.connected_instances == count_state(states@.take(i as int), InstanceState::Connected),
            stats.connecting_instances == count_state(states@.take(i as int), InstanceState::Connecting),
            stats.failed_instances == count_state(states@.take(i as int), InstanceState::Failed),
            stats.oauth_pending_instances == count_state(states@.take(i as int), InstanceState::OAuthPending),
            stats.connected_instances <= i && stats.connecting_instances <= i
                && stats.failed_instances <= i && stats.oauth_pending_instances <= i,
        decreases states@.len() - i,
    {
        assert(states@.take(i + 1).drop_last() == states@.take(i as int));
        stats.total_instances = stats.total_instances + 1;
        match states[i] {
            InstanceState::Connected => stats.connected_instances = stats.connected_instances + 1,
            InstanceState::Connecting => stats.connecting_instances = stats.connecting_instances + 1,
            InstanceState::Failed => stats.failed_instances = stats.failed_instances + 1,
            InstanceState::OAuthPending => stats.oauth_pending_instances = stats.oauth_pending_instances + 1,
            InstanceState::Disconnected => {},
        }
        i = i + 1;
    }
    assert(states@.take(states@.len() as int) == states@);
    stats
}

/// The counts of all five states add up to the number of instances.
proof fn lemma_counts_sum(states: Seq<InstanceState>)
    ensures
        count_state(states, InstanceState::Connected) + count_state(states, InstanceState::Connecting)
            + count_state(states, InstanceState::Failed) + count_state(states, InstanceState::OAuthPending)
            + count_state(states, InstanceState::Disconnected) == states.len(),
    decreases states.len(),
{
    if states.len() > 0 {
        lemma_counts_sum(states.drop_last());
    }
}

/// Every instance is counted once: the connected, connecting, failed and
/// OAuth-pending counts together never exceed the total, and the rest are
/// disconnected.
pub proof fn law_pool_stats_partition(states: Seq<InstanceState>)
    ensures
        count_state(states, InstanceState::Connected) + count_state(states, InstanceState::Connecting)
            + count_state(states, InstanceState::Failed) + count_state(states, InstanceState::OAuthPending)
            <= states.len(),
        states.len() - (count_state(states, InstanceState::Connected) + count_state(states, InstanceState::Connecting)
            + count_state(states, InstanceState::Failed) + count_state(states, InstanceState::OAuthPending))
            == count_state(states, InstanceState::Disconnected),
{
    lemma_counts_sum(states);
}

/// Result of a connection attempt.
#[derive(Debug)]
pub enum ConnectionResult {
    /// Connected
    Connected {
        /// Whether an existing healthy instance was reused
        reused: bool,
        /// Discovered features (empty when reused)
        features: DiscoveredCapabilities,
    },
    /// OAuth is required: the user must authorize
    OAuthRequired {
        /// Authorization URL to open in the browser
        auth_url: String,
    },
    /// The attempt failed
    Failed {
        /// Error message
        error: String,
    },
}

/// An installed server to reconnect on startup.
#[derive(Debug, Clone)]
pub struct InstalledServerInfo {
    /// Space of the installation
    pub space_id: u128,
    /// Server ID
    pub server_id: String,
    /// Whether the server needs OAuth
    pub requires_oauth: bool,
    /// Whether credentials are stored for it
    pub has_credentials: bool,
}

/// Outcome of reconnecting the enabled servers.
#[derive(Debug, Clone)]
pub struct ReconnectResult {
    /// Newly connected servers (server, space)
    pub connected: Vec<(String, u128)>,
    /// Servers whose healthy instance was reused
    pub reused: Vec<(String, u128)>,
    /// Failed servers with their error
    pub failed: Vec<(String, u128, String)>,
    /// Servers that need the user to authorize
    pub needs_oauth: Vec<(String, u128)>,
}

impl Default for ReconnectResult {
    fn default() -> (r: Self)
        ensures
            r.connected@.len() == 0 && r.reused@.len() == 0 && r.failed@.len() == 0 && r.needs_oauth@.len() == 0,
    {
        ReconnectResult { connected: Vec::new(), reused: Vec::new(), failed: Vec::new(), needs_oauth: Vec::new() }
    }
}

impl ReconnectResult {
    /// Servers connected or reused.
    pub fn total_success(&self) -> (n: usize)
        requires
            self.connected@.len() + self.reused@.len() <= usize::MAX,
        ensures
            n == self.connected@.len() + self.reused@.len(),
    {
        self.connected.len() + self.reused.len()
    }

    /// Servers failed or waiting for OAuth.
    pub fn total_failed(&self) -> (n: usize)
        requires
            self.failed@.len() + self.needs_oauth@.len() <= usize::MAX,
        ensures
            n == self.failed@.len() + self.needs_oauth@.len(),
    {
        self.failed.len() + self.needs_oauth.len()
    }
}

/// Whether a server needs the user to authorize before it can connect: it
/// requires OAuth and no credentials are stored.
pub open spec fn needs_user_authorization(server: InstalledServerInfo) -> bool {
    server.requires_oauth && !server.has_credentials
}

/// What reconnecting one server comes to before any connection is tried.
#[derive(Debug, Clone, Copy, PartialEq, Eq, Structural)]
pub enum ReconnectStep {
    /// OAuth is required and no credentials are stored: the user must act
    NeedsOAuth,
    /// Its transport configuration is missing
    NoConfig,
    /// Connect, without opening a browser
    Connect,
}

/// The first decision for a server on startup, made before its transport
/// configuration is read: one that needs OAuth without credentials is not
/// tried (`NeedsOAuth`); for any other the configuration is read next, and
/// `Connect` stands for that.
pub fn reconnect_step(server: &InstalledServerInfo) -> (r: ReconnectStep)
    ensures
        r == if needs_user_authorization(*server) {
            ReconnectStep::NeedsOAuth
        } else {
            ReconnectStep::Connect
        },
{
    if server.requires_oauth && !server.has_credentials {
        ReconnectStep::NeedsOAuth
    } else {
        ReconnectStep::Connect
    }
}

/// The decision once a server's configuration was read: without one it
/// fails, else it is connected.
pub fn config_step(has_config: bool) -> (r: ReconnectStep)
    ensures
        r == if has_config {
            ReconnectStep::Connect
        } else {
            ReconnectStep::NoConfig
        },
{
    if has_config {
        ReconnectStep::Connect
    } else {
        ReconnectStep::NoConfig
    }
}

/// What became of one server during reconnection.
#[derive(Debug)]
pub enum ServerOutcome {
    /// Not tried: it needs the user to authorize (its configuration was not read)
    NotTried,
    /// Its configuration was read and is missing
    NoConfig,
    /// It was connected, with this result
    Attempted(ConnectionResult),
}

/// Whether the list holds this server of this space.
pub open spec fn lists_server(v: Seq<(String, u128)>, server: InstalledServerInfo) -> bool {
    exists|j: int| 0 <= j < v.len() && (#[trigger] v[j]).0@ == server.server_id@ && v[j].1 == server.space_id
}

/// The size of a reconnection result: all its lists together.
pub open spec fn reconnect_total(r: ReconnectResult) -> nat {
    r.connected@.len() + r.reused@.len() + r.failed@.len() + r.needs_oauth@.len()
}

/// A reconnection result as plain values: the connected, reused, failed
/// (with the error) and OAuth-needing servers, each by (server, space).
pub type ReconnectLists = (
    Seq<(Seq<char>, u128)>,
    Seq<(Seq<char>, u128)>,
    Seq<(Seq<char>, u128, Seq<char>)>,
    Seq<(Seq<char>, u128)>,
);

/// A (server, space) list as plain values.
pub open spec fn pairs_view(v: Seq<(String, u128)>) -> Seq<(Seq<char>, u128)> {
    v.map_values(|p: (String, u128)| (p.0@, p.1))
}

/// A (server, space, error) list as plain values.
pub open spec fn triples_view(v: Seq<(String, u128, String)>) -> Seq<(Seq<char>, u128, Seq<char>)> {
    v.map_values(|p: (String, u128, String)| (p.0@, p.1, p.2@))
}

/// The lists of a reconnection result as plain values.
pub open spec fn lists_of(r: ReconnectResult) -> ReconnectLists {
    (pairs_view(r.connected@), pairs_view(r.reused@), triples_view(r.failed@), pairs_view(r.needs_oauth@))
}

/// The lists after recording one server with its outcome: a server needing
/// the user to authorize (or not tried) needs OAuth; one without
/// configuration fails with "No transport config"; one connected goes to
/// connected or reused, one that asked for OAuth needs OAuth, one that
/// failed fails with its error.
pub open spec fn record_step(l: ReconnectLists, s: InstalledServerInfo, o: ServerOutcome) -> ReconnectLists {
    let key = (s.server_id@, s.space_id);
    if needs_user_authorization(s) {
        (l.0, l.1, l.2, l.3.push(key))
    } else {
        match o {
            ServerOutcome::NotTried => (l.0, l.1, l.2, l.3.push(key)),
            ServerOutcome::NoConfig => (l.0, l.1, l.2.push((key.0, key.1, "No transport config"@)), l.3),
            ServerOutcome::Attempted(res) => match res {
                ConnectionResult::Connected { reused, .. } => if reused {
                    (l.0, l.1.push(key), l.2, l.3)
                } else {
                    (l.0.push(key), l.1, l.2, l.3)
                },
                ConnectionResult::OAuthRequired { .. } => (l.0, l.1, l.2, l.3.push(key)),
                ConnectionResult::Failed { error } => (l.0, l.1, l.2.push((key.0, key.1, error@)), l.3),
            },
        }
    }
}

/// The lists after recording each server with its outcome, in order.
pub open spec fn reconnect_lists(servers: Seq<InstalledServerInfo>, outcomes: Seq<ServerOutcome>) -> ReconnectLists
    decreases servers.len(),
{
    if servers.len() == 0 || outcomes.len() == 0 {
        (Seq::empty(), Seq::empty(), Seq::empty(), Seq::empty())
    } else {
        record_step(
            reconnect_lists(servers.drop_last(), outcomes.drop_last()),
            servers.last(),
            outcomes.last(),
        )
    }
}

/// Every server is recorded in exactly one list.
pub proof fn law_reconnect_counts_every_server(servers: Seq<InstalledServerInfo>, outcomes: Seq<ServerOutcome>)
    requires
        servers.len() == outcomes.len(),
    ensures
        ({
            let l = reconnect_lists(servers, outcomes);
            l.0.len() + l.1.len() + l.2.len() + l.3.len() == servers.len()
        }),
    decreases servers.len(),
{
    if servers.len() > 0 {
        law_reconnect_counts_every_server(servers.drop_last(), outcomes.drop_last());
    }
}

/// Records one server with its outcome.
fn record_outcome(r: &mut ReconnectResult, server: &InstalledServerInfo, outcome: &ServerOutcome)
    ensures
        lists_of(*final(r)) == record_step(lists_of(*old(r)), *server, *outcome),
{
    let id = owned(server.server_id.as_str());
    let ghost l = lists_of(*old(r));
    match reconnect_step(server) {
        ReconnectStep::NeedsOAuth => {
            r.needs_oauth.push((id, server.space_id));
        },
        _ => match outcome {
            ServerOutcome::NotTried => {
                r.needs_oauth.push((id, server.space_id));
            },
            ServerOutcome::NoConfig => {
                r.failed.push((id, server.space_id, owned("No transport config")));
            },
            ServerOutcome::Attempted(result) => match result {
                ConnectionResult::Connected { reused, .. } => {
                    if *reused {
                        r.reused.push((id, server.space_id));
                    } else {
                        r.connected.push((id, server.space_id));
                    }
                },
                ConnectionResult::OAuthRequired { .. } => {
                    r.needs_oauth.push((id, server.space_id));
                },
                ConnectionResult::Failed { error } => {
                    r.failed.push((id, server.space_id, owned(error.as_str())));
                },
            },
        },
    }
    proof {
        assert(lists_of(*r).0 =~= record_step(l, *server, *outcome).0);
        assert(lists_of(*r).1 =~= record_step(l, *server, *outcome).1);
        assert(lists_of(*r).2 =~= record_step(l, *server, *outcome).2);
        assert(lists_of(*r).3 =~= record_step(l, *server, *outcome).3);
    }
}

/// The servers of the items.
pub open spec fn item_servers(items: Seq<(InstalledServerInfo, ServerOutcome)>) -> Seq<InstalledServerInfo> {
    items.map_values(|x: (InstalledServerInfo, ServerOutcome)| x.0)
}

/// The outcomes of the items.
pub open spec fn item_outcomes(items: Seq<(InstalledServerInfo, ServerOutcome)>) -> Seq<ServerOutcome> {
    items.map_values(|x: (InstalledServerInfo, ServerOutcome)| x.1)
}

/// Collects the outcomes of reconnecting the enabled servers, in order:
/// each server lands in the list its outcome names (`record_step`), so every
/// server is in exactly one list.
pub fn tally_reconnect(items: &Vec<(InstalledServerInfo, ServerOutcome)>) -> (r: ReconnectResult)
    ensures
        lists_of(r) == reconnect_lists(item_servers(items@), item_outcomes(items@)),
        reconnect_total(r) == items@.len(),
{
    let mut r = ReconnectResult::default();
    let mut i: usize = 0;
    proof {
        assert(lists_of(r).0 =~= Seq::<(Seq<char>, u128)>::empty());
        assert(lists_of(r).1 =~= Seq::<(Seq<char>, u128)>::empty());
        assert(lists_of(r).2 =~= Seq::<(Seq<char>, u128, Seq<char>)>::empty());
        assert(lists_of(r).3 =~= Seq::<(Seq<char>, u128)>::empty());
    }
    while i < items.len()
        invariant
            i <= items@.len(),
            lists_of(r) == reconnect_lists(item_servers(items@.take(i as int)), item_outcomes(items@.take(i as int))),
        decreases items@.len() - i,
    {
        record_outcome(&mut r, &items[i].0, &items[i].1);
        proof {
            let t = items@.take(i + 1);
            assert(item_servers(t).drop_last() =~= item_servers(items@.take(i as int)));
            assert(item_outcomes(t).drop_last() =~= item_outcomes(items@.take(i as int)));
            assert(item_servers(t).last() == items@[i as int].0);
            assert(item_outcomes(t).last() == items@[i as int].1);
        }
        i = i + 1;
    }
    proof {
        assert(items@.take(items@.len() as int) =~= items@);
        law_reconnect_counts_every_server(item_servers(items@), item_outcomes(items@));
    }
    r
}

/// What reconnecting a server came to, as the calls that were made show:
/// a server needing the user to authorize was not tried; for any other,
/// `get_config` gave nothing (no configuration), or gave a configuration
/// with which `connect` gave the result.
pub open spec fn outcome_of_calls<C, G: Fn(&InstalledServerInfo) -> Option<C>, K: Fn(
    &InstalledServerInfo,
    C,
) -> ConnectionResult>(get_config: G, connect: K, s: InstalledServerInfo, o: ServerOutcome) -> bool {
    if needs_user_authorization(s) {
        o is NotTried
    } else {
        match o {
            ServerOutcome::NotTried => false,
            ServerOutcome::NoConfig => get_config.ensures((&s,), None),
            ServerOutcome::Attempted(res) => exists|c: C|
                get_config.ensures((&s,), Some(c)) && #[trigger] connect.ensures((&s, c), res),
        }
    }
}

/// Reconnects the enabled servers on startup: a server that needs the user
/// to authorize is not tried and its configuration is not read
/// (`get_config` is called only for the others); a server without a
/// configuration fails with "No transport config"; every other one is
/// connected with `connect` (in automatic mode, without opening a browser)
/// and recorded by its result. Every server lands in exactly one list.
pub fn reconnect_all_enabled<C, G, K>(servers: Vec<InstalledServerInfo>, get_config: G, connect: K) -> (r:
    ReconnectResult) where G: Fn(&InstalledServerInfo) -> Option<C>, K: Fn(&InstalledServerInfo, C) -> ConnectionResult
    requires
        forall|s: &InstalledServerInfo| get_config.requires((s,)),
        forall|s: &InstalledServerInfo, c: C| connect.requires((s, c)),
    ensures
        exists|outcomes: Seq<ServerOutcome>|
            {
                &&& outcomes.len() == servers@.len()
                &&& forall|i: int|
                    0 <= i < servers@.len() ==> outcome_of_calls(get_config, connect, #[trigger] servers@[i], outcomes[i])
                &&& lists_of(r) == reconnect_lists(servers@, outcomes)
            },
        reconnect_total(r) == servers@.len(),
{
    let mut r = ReconnectResult::default();
    let ghost mut outcomes: Seq<ServerOutcome> = Seq::empty();
    proof {
        assert(lists_of(r).0 =~= Seq::<(Seq<char>, u128)>::empty());
        assert(lists_of(r).1 =~= Seq::<(Seq<char>, u128)>::empty());
        assert(lists_of(r).2 =~= Seq::<(Seq<char>, u128, Seq<char>)>::empty());
        assert(lists_of(r).3 =~= Seq::<(Seq<char>, u128)>::empty());
    }
    let mut i: usize = 0;
    while i < servers.len()
        invariant
            i <= servers@.len(),
            outcomes.len() == i,
            forall|s: &InstalledServerInfo| get_config.requires((s,)),
            forall|s: &InstalledServerInfo, c: C| connect.requires((s, c)),
            forall|k: int| 0 <= k < i ==> outcome_of_calls(get_config, connect, #[trigger] servers@[k], outcomes[k]),
            lists_of(r) == reconnect_lists(servers@.take(i as int), outcomes),
        decreases servers@.len() - i,
    {
        let server = &servers[i];
        let outcome = match reconnect_step(server) {
            ReconnectStep::NeedsOAuth => ServerOutcome::NotTried,
            _ => match get_config(server) {
                Some(c) => ServerOutcome::Attempted(connect(server, c)),
                None => ServerOutcome::NoConfig,
            },
        };
        record_outcome(&mut r, server, &outcome);
        proof {
            let old_outcomes = outcomes;
            outcomes = outcomes.push(outcome);
            assert(servers@.take(i + 1).drop_last() =~= servers@.take(i as int));
            assert(outcomes.drop_last() =~= old_outcomes);
            assert forall|k: int| 0 <= k < i + 1 implies outcome_of_calls(
                get_config,
                connect,
                #[trigger] servers@[k],
                outcomes[k],
            ) by {
                if k < i {
                    assert(outcomes[k] == old_outcomes[k]);
                }
            }
        }
        i = i + 1;
    }
    proof {
        assert(servers@.take(servers@.len() as int) =~= servers@);
        law_reconnect_counts_every_server(servers@, outcomes);
    }
    r
}

impl ReconnectResult {
    /// Records a server that needs the user to authorize.
    pub fn record_needs_oauth(&mut self, server_id: String, space_id: u128)
        ensures
            final(self).needs_oauth@ == old(self).needs_oauth@.push((server_id, space_id)),
            final(self).connected@ == old(self).connected@ && final(self).reused@ == old(self).reused@
                && final(self).failed@ == old(self).failed@,
    {
        self.needs_oauth.push((server_id, space_id));
    }

    /// Records a server without a transport configuration as failed.
    pub fn record_no_config(&mut self, server_id: String, space_id: u128)
        ensures
            final(self).failed@.len() == old(self).failed@.len() + 1,
            final(self).failed@.drop_last() == old(self).failed@,
            final(self).failed@.last().0 == server_id && final(self).failed@.last().1 == space_id,
            final(self).failed@.last().2@ == "No transport config"@,
            final(self).connected@ == old(self).connected@ && final(self).reused@ == old(self).reused@
                && final(self).needs_oauth@ == old(self).needs_oauth@,
    {
        self.failed.push((server_id, space_id, owned("No transport config")));
        assert(self.failed@.drop_last() == old(self).failed@);
    }

    /// Records the result of connecting a server: connected or reused,
    /// waiting for OAuth, or failed with its error.
    pub fn record_connection(&mut self, server_id: String, space_id: u128, result: ConnectionResult)
        ensures
            match result {
                ConnectionResult::Connected { reused, .. } => (if reused {
                    final(self).reused@ == old(self).reused@.push((server_id, space_id))
                        && final(self).connected@ == old(self).connected@
                } else {
                    final(self).connected@ == old(self).connected@.push((server_id, space_id))
                        && final(self).reused@ == old(self).reused@
                }) && final(self).failed@ == old(self).failed@ && final(self).needs_oauth@ == old(self).needs_oauth@,
                ConnectionResult::OAuthRequired { .. } => final(self).needs_oauth@ == old(self).needs_oauth@.push(
                    (server_id, space_id),
                ) && final(self).connected@ == old(self).connected@ && final(self).reused@ == old(self).reused@
                    && final(self).failed@ == old(self).failed@,
                ConnectionResult::Failed { error } => final(self).failed@ == old(self).failed@.push(
                    (server_id, space_id, error),
                ) && final(self).connected@ == old(self).connected@ && final(self).reused@ == old(self).reused@
                    && final(self).needs_oauth@ == old(self).needs_oauth@,
            },
    {
        match result {
            ConnectionResult::Connected { reused, .. } => {
                if reused {
                    self.reused.push((server_id, space_id));
                } else {
                    self.connected.push((server_id, space_id));
                }
            },
            ConnectionResult::OAuthRequired { .. } => {
                self.needs_oauth.push((server_id, space_id));
            },
            ConnectionResult::Failed { error } => {
                self.failed.push((server_id, space_id, error));
            },
        }
    }
}

/// The URL to connect to: a stored DCR registration's server URL replaces
/// the configured one when they differ.
pub fn effective_server_url(config_url: String, registration_url: Option<String>) -> (r: String)
    ensures
        r == match registration_url {
            Some(u) => u,
            None => config_url,
        },
{
    match registration_url {
        Some(u) => u,
        None => config_url,
    }
}

/// What a transport's connection attempt came to.
#[derive(Debug, Clone)]
pub enum TransportOutcome {
    /// Connected; `features` were discovered (empty when discovery failed)
    Connected { features: DiscoveredCapabilities },
    /// The server wants OAuth
    OAuthRequired { server_url: String },
    /// The attempt failed
    Failed { error: String },
}

/// What the connection service does after an attempt on an instance.
#[derive(Debug)]
pub enum AfterAttempt {
    /// Report this result
    Report(ConnectionResult),
    /// Handle the OAuth requirement for this server URL
    HandleOAuth { server_url: String },
}

/// Records an attempt's outcome on the instance's statistics (at `now`) and
/// gives what follows: a connection is reported as new, an OAuth demand
/// leaves the instance waiting for OAuth, a failure is counted.
pub fn record_transport_outcome(stats: &mut InstanceStats, outcome: TransportOutcome, now: u64) -> (r: AfterAttempt)
    requires
        outcome is Failed ==> old(stats).consecutive_failures < u32::MAX,
    ensures
        match outcome {
            TransportOutcome::Connected { features } => {
                &&& final(stats).state == InstanceState::Connected
                &&& final(stats).connected_at == Some(now)
                &&& final(stats).consecutive_failures == 0
                &&& final(stats).last_error is None
                &&& r matches AfterAttempt::Report(ConnectionResult::Connected { reused, features: f })
                    && !reused && f == features
            },
            TransportOutcome::OAuthRequired { server_url } => {
                &&& final(stats).state == InstanceState::OAuthPending
                &&& final(stats).consecutive_failures == old(stats).consecutive_failures
                &&& r matches AfterAttempt::HandleOAuth { server_url: u } && u == server_url
            },
            TransportOutcome::Failed { error } => {
                &&& final(stats).state == InstanceState::Failed
                &&& final(stats).consecutive_failures == old(stats).consecutive_failures + 1
                &&& final(stats).last_error == Some(error)
                &&& r matches AfterAttempt::Report(ConnectionResult::Failed { error: e }) && e == error
            },
        },
{
    match outcome {
        TransportOutcome::Connected { features } => {
            stats.mark_connected(now);
            AfterAttempt::Report(ConnectionResult::Connected { reused: false, features })
        },
        TransportOutcome::OAuthRequired { server_url } => {
            stats.mark_oauth_pending();
            AfterAttempt::HandleOAuth { server_url }
        },
        TransportOutcome::Failed { error } => {
            stats.mark_failed(error.clone());
            AfterAttempt::Report(ConnectionResult::Failed { error })
        },
    }
}

/// Whether a connection request reuses the existing instance: it is healthy
/// and its features are known.
pub fn should_reuse_instance(healthy: bool, has_features: bool) -> (b: bool)
    ensures
        b == (healthy && has_features),
{
    healthy && has_features
}

/// The server URL to reconnect to after OAuth: the stored registration's;
/// without one, or when the lookup fails, the reconnection fails.
pub fn reconnect_target(registration: Result<Option<String>, String>) -> (r: Result<String, String>)
    ensures
        match registration {
            Ok(Some(u)) => r == Ok::<String, String>(u),
            Ok(None) => r matches Err(m) && m@ == "No OAuth registration found - cannot determine server URL"@,
            Err(e) => r matches Err(m) && m@ == "Failed to get OAuth registration: "@ + e@,
        },
{
    match registration {
        Ok(Some(u)) => Ok(u),
        Ok(None) => Err(owned("No OAuth registration found - cannot determine server URL")),
        Err(e) => Err(join2("Failed to get OAuth registration: ", e.as_str())),
    }
}

/// The first decision when a server requires OAuth, made before any flow is
/// started: during automatic reconnection no flow is started and the result
/// is `OAuthRequired` with an empty authorization URL; otherwise (`None`) a
/// flow is started and `oauth_flow_result` gives the result.
pub fn oauth_without_flow(auto_reconnect: bool) -> (r: Option<ConnectionResult>)
    ensures
        auto_reconnect ==> (r matches Some(ConnectionResult::OAuthRequired { auth_url }) && auth_url@.len() == 0),
        !auto_reconnect ==> r is None,
{
    if auto_reconnect {
        Some(ConnectionResult::OAuthRequired { auth_url: String::new() })
    } else {
        None
    }
}

/// The connection result once a flow was started for a server that requires
/// OAuth: the authorization URL when the flow started, else a failure with
/// the reason.
pub fn oauth_flow_result(flow: Result<OAuthInitResult, String>) -> (r: ConnectionResult)
    ensures
        match flow {
            Ok(OAuthInitResult::Initiated { auth_url }) => r matches ConnectionResult::OAuthRequired { auth_url: u } && u == auth_url,
            Ok(OAuthInitResult::AlreadyAuthorized) => r matches ConnectionResult::Failed { error } && error@
                == "OAuth state mismatch - please retry"@,
            Ok(OAuthInitResult::NotSupported(reason)) => r matches ConnectionResult::Failed { error } && error@
                == "OAuth not supported: "@ + reason@,
            Err(e) => r matches ConnectionResult::Failed { error } && error@ == "OAuth flow failed: "@ + e@,
        },
{
    match flow {
        Ok(OAuthInitResult::Initiated { auth_url }) => ConnectionResult::OAuthRequired { auth_url },
        Ok(OAuthInitResult::AlreadyAuthorized) => ConnectionResult::Failed {
            error: owned("OAuth state mismatch - please retry"),
        },
        Ok(OAuthInitResult::NotSupported(reason)) => ConnectionResult::Failed {
            error: join2("OAuth not supported: ", reason.as_str()),
        },
        Err(e) => ConnectionResult::Failed { error: join2("OAuth flow failed: ", e.as_str()) },
    }
}

/// `a` + `b` + `c` + `d`.
fn join4(a: &str, b: &str, c: &str, d: &str) -> (r: String)
    ensures
        r@ == a@ + b@ + c@ + d@,
{
    let mut r = join2(a, b);
    r.append(c);
    r.append(d);
    r
}

/// What the reconnection after OAuth does once it had to authorize again
/// and the flow was started.
#[derive(Debug)]
pub enum ReauthStep {
    /// The stored token was refreshed: connect again (the instance is
    /// connecting)
    Retry,
    /// Report `result`, emitting `event` first when there is one
    Report { event: Option<DomainEvent>, result: ConnectionResult },
}

/// The step after starting a flow because the stored token was refused:
/// a refreshed token is retried; a browser flow emits `ServerAuthRequired`
/// and reports `OAuthRequired`; an unsupported or failed flow fails the
/// instance with the reason.
pub fn reauth_step(
    stats: &mut InstanceStats,
    space_id: u128,
    server_id: &str,
    flow: Result<OAuthInitResult, String>,
    now: u64,
) -> (r: ReauthStep)
    requires
        old(stats).consecutive_failures < u32::MAX,
    ensures
        match flow {
            Ok(OAuthInitResult::AlreadyAuthorized) => {
                &&& r is Retry
                &&& final(stats).state == InstanceState::Connecting
                &&& final(stats).last_attempt == Some(now)
            },
            Ok(OAuthInitResult::Initiated { auth_url }) => {
                &&& r matches ReauthStep::Report {
                    event: Some(DomainEvent::ServerAuthRequired { space_id: sp, server_id: sv, auth_url: u }),
                    result: ConnectionResult::OAuthRequired { auth_url: ru },
                } && sp == space_id && sv@ == server_id@ && u == auth_url && ru == auth_url
                &&& *final(stats) == *old(stats)
            },
            Ok(OAuthInitResult::NotSupported(reason)) => {
                let m = "OAuth not supported for '"@ + server_id@ + "': "@ + reason@;
                &&& r matches ReauthStep::Report { event: None, result: ConnectionResult::Failed { error } }
                    && error@ == m
                &&& final(stats).state == InstanceState::Failed
                &&& final(stats).consecutive_failures == old(stats).consecutive_failures + 1
                &&& final(stats).last_error matches Some(e) && e@ == m
            },
            Err(e) => {
                let m = "Re-authentication failed for '"@ + server_id@ + "': "@ + e@;
                &&& r matches ReauthStep::Report { event: None, result: ConnectionResult::Failed { error } }
                    && error@ == m
                &&& final(stats).state == InstanceState::Failed
                &&& final(stats).consecutive_failures == old(stats).consecutive_failures + 1
                &&& final(stats).last_error matches Some(le) && le@ == m
            },
        },
{
    match flow {
        Ok(OAuthInitResult::AlreadyAuthorized) => {
            stats.mark_connecting(now);
            ReauthStep::Retry
        },
        Ok(OAuthInitResult::Initiated { auth_url }) => {
            let event = DomainEvent::ServerAuthRequired {
                space_id,
                server_id: owned(server_id),
                auth_url: auth_url.clone(),
            };
            ReauthStep::Report { event: Some(event), result: ConnectionResult::OAuthRequired { auth_url } }
        },
        Ok(OAuthInitResult::NotSupported(reason)) => {
            let m = join4("OAuth not supported for '", server_id, "': ", reason.as_str());
            stats.mark_failed(m.clone());
            ReauthStep::Report { event: None, result: ConnectionResult::Failed { error: m } }
        },
        Err(e) => {
            let m = join4("Re-authentication failed for '", server_id, "': ", e.as_str());
            stats.mark_failed(m.clone());
            ReauthStep::Report { event: None, result: ConnectionResult::Failed { error: m } }
        },
    }
}

/// The result of connecting again after the token was refreshed: connected
/// (a new instance with its features), or failed as still unreachable,
/// whatever else the attempt came to.
pub fn retry_after_refresh(stats: &mut InstanceStats, server_id: &str, outcome: TransportOutcome, now: u64) -> (r:
    ConnectionResult)
    requires
        old(stats).consecutive_failures < u32::MAX,
    ensures
        match outcome {
            TransportOutcome::Connected { features } => {
                &&& r matches ConnectionResult::Connected { reused, features: f } && !reused && f == features
                &&& final(stats).state == InstanceState::Connected
                &&& final(stats).connected_at == Some(now)
            },
            _ => {
                let m = "Server '"@ + server_id@ + "' still unreachable after token refresh"@;
                &&& r matches ConnectionResult::Failed { error } && error@ == m
                &&& final(stats).state == InstanceState::Failed
                &&& final(stats).consecutive_failures == old(stats).consecutive_failures + 1
                &&& final(stats).last_error matches Some(e) && e@ == m
            },
        },
{
    match outcome {
        TransportOutcome::Connected { features } => {
            stats.mark_connected(now);
            ConnectionResult::Connected { reused: false, features }
        },
        _ => {
            let mut m = join2("Server '", server_id);
            m.append("' still unreachable after token refresh");
            stats.mark_failed(m.clone());
            ConnectionResult::Failed { error: m }
        },
    }
}

} // verus!
