use mcpmux::gateway_api::{
    gateway_ready, startup_refresh_result, tally_connections, BulkConnectResult, PoolStatsResponse,
};
use mcpmux::event::DiscoveredCapabilities;
use mcpmux::oauth::OAuthConfig;
use mcpmux::pool::{ConnectionResult, PoolStats};

#[test]
fn oauth_config_builders() {
    let c = OAuthConfig::new("https://auth.atlassian.com".to_string());
    assert_eq!(c.scopes, vec!["openid"]);
    assert!(c.client_id.is_none());
    let c = c.with_scopes(vec!["read".to_string()]).with_client("id".to_string(), Some("secret".to_string()));
    assert_eq!(c.scopes, vec!["read"]);
    assert_eq!(c.client_id, Some("id".to_string()));
    assert_eq!(c.client_secret, Some("secret".to_string()));
    assert_eq!(c.issuer, "https://auth.atlassian.com");
}

#[test]
fn bulk_connect_counts() {
    let mut r = BulkConnectResult::new();
    r.record("a", &ConnectionResult::Connected { reused: false, features: DiscoveredCapabilities::new() });
    r.record("b", &ConnectionResult::Connected { reused: true, features: DiscoveredCapabilities::new() });
    r.record("c", &ConnectionResult::OAuthRequired { auth_url: "u".to_string() });
    r.record("d", &ConnectionResult::Failed { error: "refused".to_string() });
    assert_eq!((r.connected, r.reused, r.oauth_required, r.failed), (1, 1, 1, 1));
    assert_eq!(r.errors, vec!["d: refused"]);
}

#[test]
fn pool_stats_response() {
    let s = PoolStats { total_instances: 5, connected_instances: 2, connecting_instances: 1, failed_instances: 1, oauth_pending_instances: 1 };
    let r = PoolStatsResponse::from_stats(Some(s));
    assert_eq!((r.total_instances, r.connected_instances, r.total_space_server_mappings), (5, 2, 3));
    let r = PoolStatsResponse::from_stats(None);
    assert_eq!(r.total_instances, 0);
    let z = startup_refresh_result();
    assert_eq!((z.servers_checked, z.tokens_refreshed, z.refresh_failed), (0, 0, 0));
}

#[test]
fn bulk_connect_needs_running_gateway() {
    assert_eq!(gateway_ready(false, true), Err("Gateway is not running".to_string()));
    assert_eq!(gateway_ready(true, false), Err("Pool service not initialized".to_string()));
    assert_eq!(gateway_ready(true, true), Ok(()));
}

#[test]
fn bulk_connect_counts_every_server() {
    let results = vec![
        ("a".to_string(), ConnectionResult::Connected { reused: false, features: DiscoveredCapabilities::new() }),
        ("b".to_string(), ConnectionResult::Connected { reused: true, features: DiscoveredCapabilities::new() }),
        ("c".to_string(), ConnectionResult::Failed { error: "boom".to_string() }),
        ("d".to_string(), ConnectionResult::OAuthRequired { auth_url: String::new() }),
        ("e".to_string(), ConnectionResult::Failed { error: "timeout".to_string() }),
    ];
    let r = tally_connections(&results);
    assert_eq!((r.connected, r.reused, r.failed, r.oauth_required), (1, 1, 2, 1));
    assert_eq!(r.errors, vec!["c: boom".to_string(), "e: timeout".to_string()]);
}
