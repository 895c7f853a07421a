//! What the desktop app reports about the gateway: its status, bulk
//! connection results and pool statistics.

use vstd::prelude::*;

use crate::feature::join2;
use crate::text::{owned, views};
use crate::pool::{ConnectionResult, PoolStats};

verus! {

/// Gateway status.
#[derive(Debug, Clone)]
pub struct GatewayStatus {
    /// Whether the gateway is running
    pub running: bool,
    /// Gateway URL if running
    pub url: Option<String>,
    /// Number of active client sessions
    pub active_sessions: usize,
    /// Number of connected backend servers
    pub connected_backends: usize,
}

/// Status of one backend server.
#[derive(Debug, Clone)]
pub struct BackendStatusResponse {
    /// Server ID
    pub server_id: String,
    /// Status name
    pub status: String,
    /// Number of tools
    pub tools_count: usize,
}

/// Result of connecting every enabled server.
#[derive(Debug, Clone)]
pub struct BulkConnectResult {
    /// Newly connected
    pub connected: usize,
    /// Existing instances reused
    pub reused: usize,
    /// Failed
    pub failed: usize,
    /// Waiting for OAuth
    pub oauth_required: usize,
    /// "server: error" for each failure
    pub errors: Vec<String>,
}

impl BulkConnectResult {
    /// Nothing connected yet.
    pub fn new() -> (r: Self)
        ensures
            r.connected == 0 && r.reused == 0 && r.failed == 0 && r.oauth_required == 0,
            r.errors@.len() == 0,
    {
        BulkConnectResult { connected: 0, reused: 0, failed: 0, oauth_required: 0, errors: Vec::new() }
    }

    /// Counts the result of connecting a server; a failure also records
    /// "server_id: error".
    pub fn record(&mut self, server_id: &str, result: &ConnectionResult)
        requires
            old(self).connected < usize::MAX && old(self).reused < usize::MAX && old(self).failed < usize::MAX
                && old(self).oauth_required < usize::MAX,
        ensures
            match *result {
                ConnectionResult::Connected { reused, .. } => if reused {
                    final(self).reused == old(self).reused + 1 && final(self).connected == old(self).connected
                } else {
                    final(self).connected == old(self).connected + 1 && final(self).reused == old(self).reused
                },
                _ => final(self).connected == old(self).connected && final(self).reused == old(self).reused,
            },
            final(self).oauth_required == old(self).oauth_required + if result is OAuthRequired {
                1int
            } else {
                0int
            },
            final(self).failed == old(self).failed + if result is Failed {
                1int
            } else {
                0int
            },
            match *result {
                ConnectionResult::Failed { error } => final(self).errors@.len() == old(self).errors@.len() + 1
                    && final(self).errors@.drop_last() == old(self).errors@ && final(self).errors@.last()@
                    == server_id@ + ": "@ + error@,
                _ => final(self).errors@ == old(self).errors@,
            },
    {
        match result {
            ConnectionResult::Connected { reused, .. } => {
                if *reused {
                    self.reused = self.reused + 1;
                } else {
                    self.connected = self.connected + 1;
                }
            },
            ConnectionResult::OAuthRequired { .. } => {
                self.oauth_required = self.oauth_required + 1;
            },
            ConnectionResult::Failed { error } => {
                self.failed = self.failed + 1;
                let mut m = join2(server_id, ": ");
                m.append(error.as_str());
                self.errors.push(m);
                assert(self.errors@.drop_last() == old(self).errors@);
            },
        }
    }
}

/// Whether the bulk connection may run: the gateway must be running and its
/// pool service ready.
pub fn gateway_ready(running: bool, has_pool: bool) -> (r: Result<(), String>)
    ensures
        !running ==> (r matches Err(m) && m@ == "Gateway is not running"@),
        running && !has_pool ==> (r matches Err(m) && m@ == "Pool service not initialized"@),
        running && has_pool ==> r is Ok,
{
    if !running {
        return Err(owned("Gateway is not running"));
    }
    if !has_pool {
        return Err(owned("Pool service not initialized"));
    }
    Ok(())
}

/// Results that connected a new instance.
pub open spec fn n_connected(rs: Seq<(String, ConnectionResult)>) -> nat
    decreases rs.len(),
{
    if rs.len() == 0 {
        0
    } else {
        n_connected(rs.drop_last()) + if rs.last().1 matches ConnectionResult::Connected { reused, .. } && !reused {
            1nat
        } else {
            0nat
        }
    }
}

/// Results that reused an existing instance.
pub open spec fn n_reused(rs: Seq<(String, ConnectionResult)>) -> nat
    decreases rs.len(),
{
    if rs.len() == 0 {
        0
    } else {
        n_reused(rs.drop_last()) + if rs.last().1 matches ConnectionResult::Connected { reused, .. } && reused {
            1nat
        } else {
            0nat
        }
    }
}

/// Results that wait for OAuth.
pub open spec fn n_oauth(rs: Seq<(String, ConnectionResult)>) -> nat
    decreases rs.len(),
{
    if rs.len() == 0 {
        0
    } else {
        n_oauth(rs.drop_last()) + if rs.last().1 is OAuthRequired {
            1nat
        } else {
            0nat
        }
    }
}

/// "server_id: error" for each failed result, in order.
pub open spec fn failure_messages(rs: Seq<(String, ConnectionResult)>) -> Seq<Seq<char>>
    decreases rs.len(),
{
    if rs.len() == 0 {
        Seq::empty()
    } else {
        let before = failure_messages(rs.drop_last());
        match rs.last().1 {
            ConnectionResult::Failed { error } => before.push(rs.last().0@ + ": "@ + error@),
            _ => before,
        }
    }
}

/// Every result is counted exactly once: as connected, reused, failed (one
/// message each) or waiting for OAuth.
pub proof fn law_bulk_counts_every_server(rs: Seq<(String, ConnectionResult)>)
    ensures
        n_connected(rs) + n_reused(rs) + failure_messages(rs).len() + n_oauth(rs) == rs.len(),
    decreases rs.len(),
{
    if rs.len() > 0 {
        law_bulk_counts_every_server(rs.drop_last());
    }
}

/// Tallies the results of connecting each enabled server, in order.
pub fn tally_connections(results: &Vec<(String, ConnectionResult)>) -> (r: BulkConnectResult)
    ensures
        r.connected == n_connected(results@),
        r.reused == n_reused(results@),
        r.oauth_required == n_oauth(results@),
        r.failed == failure_messages(results@).len(),
        views(r.errors@) == failure_messages(results@),
        r.connected + r.reused + r.failed + r.oauth_required == results@.len(),
{
    let mut r = BulkConnectResult::new();
    let mut i: usize = 0;
    while i < results.len()
        invariant
            i <= results@.len(),
            r.connected == n_connected(results@.take(i as int)),
            r.reused == n_reused(results@.take(i as int)),
            r.oauth_required == n_oauth(results@.take(i as int)),
            r.failed == failure_messages(results@.take(i as int)).len(),
            views(r.errors@) == failure_messages(results@.take(i as int)),
        decreases results@.len() - i,
    {
        proof {
            law_bulk_counts_every_server(results@.take(i as int));
            let t = results@.take(i + 1);
            assert(t.drop_last() =~= results@.take(i as int));
        }
        let ghost old_errors = r.errors@;
        r.record(results[i].0.as_str(), &results[i].1);
        proof {
            let t = results@.take(i + 1);
            assert(t.last() == results@[i as int]);
            assert(views(r.errors@) =~= failure_messages(t)) by {
                match results@[i as int].1 {
                    ConnectionResult::Failed { error } => {
                        assert(r.errors@ == old_errors.push(r.errors@.last()));
                    },
                    _ => {},
                }
            }
        }
        i = i + 1;
    }
    proof {
        assert(results@.take(results@.len() as int) =~= results@);
        law_bulk_counts_every_server(results@);
    }
    r
}

/// Result of refreshing OAuth tokens on startup.
#[derive(Debug, Clone, Copy, PartialEq, Eq, Structural)]
pub struct RefreshResult {
    /// Servers checked
    pub servers_checked: usize,
    /// Tokens refreshed
    pub tokens_refreshed: usize,
    /// Refresh attempts that failed
    pub refresh_failed: usize,
}

/// The startup refresh result: tokens are refreshed per request by the
/// client library, so startup checks and refreshes nothing.
pub fn startup_refresh_result() -> (r: RefreshResult)
    ensures
        r.servers_checked == 0 && r.tokens_refreshed == 0 && r.refresh_failed == 0,
{
    RefreshResult { servers_checked: 0, tokens_refreshed: 0, refresh_failed: 0 }
}

/// Pool statistics as the UI shows them.
#[derive(Debug, Clone, Copy, PartialEq, Eq, Structural)]
pub struct PoolStatsResponse {
    /// All instances
    pub total_instances: usize,
    /// Connected instances
    pub connected_instances: usize,
    /// Instances connecting, failed or waiting for OAuth
    pub total_space_server_mappings: usize,
}

impl PoolStatsResponse {
    /// The UI's view of pool statistics (zero when the pool is not running).
    pub fn from_stats(stats: Option<PoolStats>) -> (r: Self)
        requires
            stats matches Some(s) ==> s.connecting_instances + s.failed_instances + s.oauth_pending_instances <= usize::MAX,
        ensures
            match stats {
                Some(s) => r.total_instances == s.total_instances && r.connected_instances == s.connected_instances
                    && r.total_space_server_mappings == s.connecting_instances + s.failed_instances
                    + s.oauth_pending_instances,
                None => r.total_instances == 0 && r.connected_instances == 0 && r.total_space_server_mappings == 0,
            },
    {
        let s = match stats {
            Some(s) => s,
            None => PoolStats::default(),
        };
        PoolStatsResponse {
            total_instances: s.total_instances,
            connected_instances: s.connected_instances,
            total_space_server_mappings: s.connecting_instances + s.failed_instances + s.oauth_pending_instances,
        }
    }
}

} // verus!
