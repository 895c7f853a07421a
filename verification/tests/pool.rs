use mcpmux::event::{DiscoveredCapabilities, DomainEvent};
use mcpmux::outbound::OAuthInitResult;
use mcpmux::pool::{
    oauth_without_flow, oauth_flow_result, reconnect_target, record_transport_outcome, should_reuse_instance,
    AfterAttempt, TransportOutcome, reauth_step, retry_after_refresh, ReauthStep,
};
use mcpmux::pool::{
    config_step, tally_reconnect, ServerOutcome, effective_server_url, is_auth_error, pool_stats, reconnect_step, ConnectionResult, InstalledServerInfo,
    InstanceKey, InstanceState, InstanceStats, PoolStats, ReconnectResult, ReconnectStep,
};

#[test]
fn auth_errors_are_detected_ignoring_case() {
    assert!(is_auth_error("HTTP 401 Unauthorized"));
    assert!(is_auth_error("Invalid_Token presented"));
    assert!(is_auth_error("The Access Token expired"));
    assert!(is_auth_error("token expired"));
    assert!(!is_auth_error("connection refused"));
    assert!(!is_auth_error(""));
}

#[test]
fn stats_count_each_state() {
    let s = pool_stats(&[
        InstanceState::Connected,
        InstanceState::Connected,
        InstanceState::Failed,
        InstanceState::Disconnected,
        InstanceState::OAuthPending,
        InstanceState::Connecting,
    ]);
    assert_eq!(
        s,
        PoolStats {
            total_instances: 6,
            connected_instances: 2,
            connecting_instances: 1,
            failed_instances: 1,
            oauth_pending_instances: 1,
        }
    );
    assert_eq!(pool_stats(&[]), PoolStats::default());
}

#[test]
fn instance_lifecycle() {
    let mut st = InstanceStats::default();
    assert_eq!(st.state, InstanceState::Disconnected);
    st.mark_connecting(10);
    assert_eq!(st.state, InstanceState::Connecting);
    assert_eq!(st.last_attempt, Some(10));
    st.mark_failed("boom".to_string());
    assert_eq!(st.consecutive_failures, 1);
    assert_eq!(st.last_error.as_deref(), Some("boom"));
    st.record_failure("again");
    assert_eq!(st.consecutive_failures, 2);
    assert_eq!(st.state, InstanceState::Failed);
    st.mark_connected(20);
    assert_eq!(st.consecutive_failures, 0);
    assert!(st.last_error.is_none());
    assert_eq!(st.connected_at, Some(20));
    st.record_success();
    assert_eq!(st.requests_served, 1);
    st.mark_oauth_pending();
    assert_eq!(st.state, InstanceState::OAuthPending);
}

#[test]
fn instance_key_urls() {
    let k = InstanceKey::http(1, "https://mcp.example.com");
    assert_eq!(k.description, "http:https://mcp.example.com");
    assert_eq!(k.get_url(), Some("https://mcp.example.com".to_string()));
    let k = InstanceKey::stdio(1, "npx");
    assert_eq!(k.description, "stdio:npx");
    assert_eq!(k.get_url(), None);
    let k = InstanceKey { space_id: 2, description: "sse:https://mcp.atlassian.com/v1/sse".to_string() };
    assert_eq!(k.get_url(), Some("https://mcp.atlassian.com/v1/sse".to_string()));
}

#[test]
fn reconnect_bookkeeping() {
    let info = InstalledServerInfo { space_id: 1, server_id: "a".to_string(), requires_oauth: true, has_credentials: false };
    assert_eq!(reconnect_step(&info), ReconnectStep::NeedsOAuth);
    let info = InstalledServerInfo { has_credentials: true, ..info };
    assert_eq!(reconnect_step(&info), ReconnectStep::Connect);
    assert_eq!(config_step(false), ReconnectStep::NoConfig);
    assert_eq!(config_step(true), ReconnectStep::Connect);

    let mut r = ReconnectResult::default();
    r.record_connection("a".to_string(), 1, ConnectionResult::Connected { reused: false, features: DiscoveredCapabilities::new() });
    r.record_connection("b".to_string(), 1, ConnectionResult::Connected { reused: true, features: DiscoveredCapabilities::new() });
    r.record_connection("c".to_string(), 1, ConnectionResult::OAuthRequired { auth_url: "u".to_string() });
    r.record_connection("d".to_string(), 2, ConnectionResult::Failed { error: "x".to_string() });
    r.record_no_config("e".to_string(), 2);
    r.record_needs_oauth("f".to_string(), 2);
    assert_eq!(r.total_success(), 2);
    assert_eq!(r.total_failed(), 4);
    assert_eq!(r.failed[1].2, "No transport config");
}

#[test]
fn registration_url_overrides_config() {
    assert_eq!(effective_server_url("a".to_string(), Some("b".to_string())), "b");
    assert_eq!(effective_server_url("a".to_string(), None), "a");
}

#[test]
fn transport_outcomes_update_stats() {
    let mut st = InstanceStats::default();
    st.mark_connecting(1);
    match record_transport_outcome(&mut st, TransportOutcome::Failed { error: "refused".to_string() }, 2) {
        AfterAttempt::Report(ConnectionResult::Failed { error }) => assert_eq!(error, "refused"),
        other => panic!("unexpected {:?}", other),
    }
    assert_eq!(st.state, InstanceState::Failed);
    assert_eq!(st.consecutive_failures, 1);
    match record_transport_outcome(&mut st, TransportOutcome::OAuthRequired { server_url: "https://s".to_string() }, 3) {
        AfterAttempt::HandleOAuth { server_url } => assert_eq!(server_url, "https://s"),
        other => panic!("unexpected {:?}", other),
    }
    assert_eq!(st.state, InstanceState::OAuthPending);
    match record_transport_outcome(&mut st, TransportOutcome::Connected { features: DiscoveredCapabilities::new() }, 4) {
        AfterAttempt::Report(ConnectionResult::Connected { reused, .. }) => assert!(!reused),
        other => panic!("unexpected {:?}", other),
    }
    assert_eq!(st.state, InstanceState::Connected);
    assert_eq!(st.consecutive_failures, 0);
    assert_eq!(st.connected_at, Some(4));
}

#[test]
fn oauth_requirement_results() {
    assert!(should_reuse_instance(true, true));
    assert!(!should_reuse_instance(true, false));
    match oauth_without_flow(true).unwrap() {
        ConnectionResult::OAuthRequired { auth_url } => assert_eq!(auth_url, ""),
        other => panic!("unexpected {:?}", other),
    }
    assert!(oauth_without_flow(false).is_none());
    match oauth_flow_result(Ok(OAuthInitResult::Initiated { auth_url: "u".to_string() })) {
        ConnectionResult::OAuthRequired { auth_url } => assert_eq!(auth_url, "u"),
        other => panic!("unexpected {:?}", other),
    }
    match oauth_flow_result(Ok(OAuthInitResult::NotSupported("no metadata".to_string()))) {
        ConnectionResult::Failed { error } => assert_eq!(error, "OAuth not supported: no metadata"),
        other => panic!("unexpected {:?}", other),
    }
    match oauth_flow_result(Ok(OAuthInitResult::AlreadyAuthorized)) {
        ConnectionResult::Failed { error } => assert_eq!(error, "OAuth state mismatch - please retry"),
        other => panic!("unexpected {:?}", other),
    }
    match oauth_flow_result(Err("boom".to_string())) {
        ConnectionResult::Failed { error } => assert_eq!(error, "OAuth flow failed: boom"),
        other => panic!("unexpected {:?}", other),
    }
    assert_eq!(reconnect_target(Ok(Some("https://s".to_string()))), Ok("https://s".to_string()));
    assert_eq!(
        reconnect_target(Ok(None)),
        Err("No OAuth registration found - cannot determine server URL".to_string())
    );
    assert_eq!(reconnect_target(Err("db".to_string())), Err("Failed to get OAuth registration: db".to_string()));
}

#[test]
fn reconnect_tally_counts_every_server_once() {
    let server = |id: &str, requires_oauth: bool, has_credentials: bool| InstalledServerInfo {
        space_id: 7,
        server_id: id.to_string(),
        requires_oauth,
        has_credentials,
    };
    let items = vec![
        (server("a", true, false), ServerOutcome::NotTried),
        (server("b", false, false), ServerOutcome::NoConfig),
        (server("c", true, true), ServerOutcome::Attempted(ConnectionResult::Connected { reused: false, features: DiscoveredCapabilities::new() })),
        (server("d", false, false), ServerOutcome::Attempted(ConnectionResult::Connected { reused: true, features: DiscoveredCapabilities::new() })),
        (server("e", false, false), ServerOutcome::Attempted(ConnectionResult::OAuthRequired { auth_url: String::new() })),
        (server("f", false, false), ServerOutcome::Attempted(ConnectionResult::Failed { error: "x".to_string() })),
    ];
    let r = tally_reconnect(&items);
    assert_eq!(r.connected, vec![("c".to_string(), 7)]);
    assert_eq!(r.reused, vec![("d".to_string(), 7)]);
    assert_eq!(r.needs_oauth, vec![("a".to_string(), 7), ("e".to_string(), 7)]);
    assert_eq!(
        r.failed,
        vec![("b".to_string(), 7, "No transport config".to_string()), ("f".to_string(), 7, "x".to_string())]
    );
}

#[test]
fn reauthentication_steps() {
    let mut s = InstanceStats::default();
    assert!(matches!(reauth_step(&mut s, 3, "gh", Ok(OAuthInitResult::AlreadyAuthorized), 10), ReauthStep::Retry));
    assert_eq!(s.state, InstanceState::Connecting);
    match reauth_step(&mut s, 3, "gh", Ok(OAuthInitResult::Initiated { auth_url: "https://a".to_string() }), 11) {
        ReauthStep::Report { event: Some(DomainEvent::ServerAuthRequired { space_id, server_id, auth_url }), result: ConnectionResult::OAuthRequired { auth_url: u } } => {
            assert_eq!((space_id, server_id.as_str(), auth_url.as_str(), u.as_str()), (3, "gh", "https://a", "https://a"));
        }
        other => panic!("unexpected {:?}", other),
    }
    match reauth_step(&mut s, 3, "gh", Ok(OAuthInitResult::NotSupported("no DCR".to_string())), 12) {
        ReauthStep::Report { event: None, result: ConnectionResult::Failed { error } } => {
            assert_eq!(error, "OAuth not supported for 'gh': no DCR")
        }
        other => panic!("unexpected {:?}", other),
    }
    match reauth_step(&mut s, 3, "gh", Err("boom".to_string()), 13) {
        ReauthStep::Report { event: None, result: ConnectionResult::Failed { error } } => {
            assert_eq!(error, "Re-authentication failed for 'gh': boom")
        }
        other => panic!("unexpected {:?}", other),
    }
    assert_eq!(s.last_error, Some("Re-authentication failed for 'gh': boom".to_string()));
    match retry_after_refresh(&mut s, "gh", TransportOutcome::Failed { error: "x".to_string() }, 14) {
        ConnectionResult::Failed { error } => assert_eq!(error, "Server 'gh' still unreachable after token refresh"),
        other => panic!("unexpected {:?}", other),
    }
    match retry_after_refresh(&mut s, "gh", TransportOutcome::Connected { features: DiscoveredCapabilities::new() }, 15) {
        ConnectionResult::Connected { reused, .. } => assert!(!reused),
        other => panic!("unexpected {:?}", other),
    }
    assert_eq!(s.state, InstanceState::Connected);
}

#[test]
fn reconnect_all_reads_config_only_when_no_oauth_is_needed() {
    let server = |id: &str, requires_oauth: bool, has_credentials: bool| InstalledServerInfo {
        space_id: 9,
        server_id: id.to_string(),
        requires_oauth,
        has_credentials,
    };
    let servers = vec![server("a", true, false), server("b", false, false), server("c", true, true)];
    let reads = std::cell::RefCell::new(Vec::new());
    let r = mcpmux::pool::reconnect_all_enabled(
        servers,
        |s: &InstalledServerInfo| {
            reads.borrow_mut().push(s.server_id.clone());
            if s.server_id == "b" { None } else { Some(()) }
        },
        |_: &InstalledServerInfo, _: ()| ConnectionResult::Connected { reused: false, features: DiscoveredCapabilities::new() },
    );
    assert_eq!(*reads.borrow(), vec!["b".to_string(), "c".to_string()]);
    assert_eq!(r.needs_oauth, vec![("a".to_string(), 9)]);
    assert_eq!(r.failed, vec![("b".to_string(), 9, "No transport config".to_string())]);
    assert_eq!(r.connected, vec![("c".to_string(), 9)]);
}
