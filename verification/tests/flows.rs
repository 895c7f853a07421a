use mcpmux::flows::{CallbackStep, FlowRegistry};
use mcpmux::outbound::{CallbackWait, FlowStart, OAuthCallback, OAuthInitResult};

#[test]
fn pending_flows_expire_and_cancel() {
    let mut r = FlowRegistry::new();
    r.register_pending_flow("state-1".to_string(), 7, "srv".to_string(), "https://mcp.example.com".to_string(), 1_000_000);
    r.record_oauth_state("state-1".to_string());
    assert!(r.is_pending(7, "srv", 1_599_999));
    assert_eq!(r.get_pending_context(7, "srv"), Some((7, "https://mcp.example.com".to_string())));
    assert!(r.is_known_state("state-1"));
    assert!(!r.is_pending(7, "srv", 1_600_000));
    assert!(!r.is_known_state("state-1"));
    assert_eq!(r.get_pending_context(7, "srv"), None);

    r.register_pending_flow("state-2".to_string(), 7, "srv".to_string(), "u".to_string(), 2000);
    r.cancel_flow(7, "srv");
    assert!(!r.is_pending(7, "srv", 2001));
    assert!(r.take_pending("state-2").is_none());
}

#[test]
fn callbacks_are_routed_once() {
    let mut r = FlowRegistry::new();
    r.register_pending_flow("abc".to_string(), 1, "s".to_string(), "u".to_string(), 0);
    r.record_oauth_state("abc".to_string());
    let f = r.take_pending("abc").unwrap();
    assert_eq!(f.server_id, "s");
    assert!(r.take_pending("abc").is_none());
    assert!(r.is_known_state("abc"));
    r.finish_flow("abc", 1, "s");
    assert!(!r.is_known_state("abc"));
    assert!(r.get_pending_context(1, "s").is_none());
}

#[test]
fn completions_are_reported_for_five_minutes() {
    let mut r = FlowRegistry::new();
    r.mark_completed(1, "s".to_string(), 100_000);
    assert!(r.has_completed(1, "s", 399_999));
    assert!(!r.has_completed(1, "s", 400_000));
    assert!(r.take_completed(1, "s", 200_000));
    assert!(!r.take_completed(1, "s", 200_000));
    r.mark_completed(1, "s".to_string(), 100);
    r.cancel_flow_for_space(1, "s");
    assert!(!r.has_completed(1, "s", 100));
}

#[test]
fn re_registering_replaces_the_active_flow() {
    let mut r = FlowRegistry::new();
    r.register_pending_flow("a".to_string(), 1, "s".to_string(), "u1".to_string(), 0);
    r.register_pending_flow("b".to_string(), 1, "s".to_string(), "u2".to_string(), 10);
    assert_eq!(r.get_pending_context(1, "s"), Some((1, "u2".to_string())));
    assert!(r.take_pending("a").is_some());
}

#[test]
fn starting_a_flow_while_one_is_pending_is_refused() {
    let mut r = FlowRegistry::new();
    r.register_pending_flow("s1".to_string(), 5, "srv".to_string(), "u".to_string(), 100_000);
    let e = r.begin_oauth_flow(5, "srv", None, 200_000, 0).unwrap_err();
    assert_eq!(e, "OAuth flow already in progress for 00000000-0000-0000-0000-000000000005/srv");
    assert!(r.is_pending(5, "srv", 200_000));
    assert_eq!(r.begin_oauth_flow(5, "srv", None, 700_000, 0), Ok(FlowStart::Fresh));
    assert!(!r.is_pending(5, "srv", 700_000));
}

#[test]
fn a_started_flow_is_registered_under_its_state() {
    let mut r = FlowRegistry::new();
    let res = r.register_started_flow(
        "https://as.example.com/authorize?client_id=c&state=xyz",
        5,
        "srv".to_string(),
        "https://mcp.example.com/mcp".to_string(),
        100,
    );
    match res {
        Ok(OAuthInitResult::Initiated { auth_url }) => {
            assert!(auth_url.contains("state=xyz"));
            assert!(auth_url.contains("resource=https%3A%2F%2Fmcp.example.com%2Fmcp"));
        }
        other => panic!("unexpected {:?}", other),
    }
    assert!(r.is_pending(5, "srv", 150));
    assert_eq!(r.get_pending_context(5, "srv"), Some((5, "https://mcp.example.com/mcp".to_string())));
    assert!(r.is_known_state("xyz"));
    let mut r2 = FlowRegistry::new();
    assert_eq!(
        r2.register_started_flow("https://as.example.com/authorize", 5, "srv".to_string(), "u".to_string(), 0)
            .unwrap_err(),
        "Failed to extract state from auth URL"
    );
    assert!(!r2.is_pending(5, "srv", 0));
}

#[test]
fn callbacks_are_answered_by_route() {
    let mut r = FlowRegistry::new();
    r.register_pending_flow("s1".to_string(), 1, "a".to_string(), "u".to_string(), 0);
    r.record_oauth_state("s1".to_string());
    assert_eq!(r.handle_callback("s1", |f| { assert_eq!(f.server_id, "a"); true }), Ok(()));
    assert_eq!(r.handle_callback("s1", |_| true), Err("OAuth callback already processed".to_string()));
    assert_eq!(r.handle_callback("nope", |_| true), Err("Unknown or expired OAuth state".to_string()));
    r.register_pending_flow("s2".to_string(), 1, "b".to_string(), "u".to_string(), 0);
    assert_eq!(r.handle_callback("s2", |_| false), Err("OAuth flow already completed or timed out".to_string()));
}

#[test]
fn callback_task_ends_as_the_flow_does() {
    let mut r = FlowRegistry::new();
    r.register_pending_flow("st".to_string(), 2, "srv".to_string(), "u".to_string(), 0);
    r.record_oauth_state("st".to_string());
    let cb = |code: Option<&str>, error: Option<&str>| OAuthCallback {
        code: code.map(|s| s.to_string()),
        state: "st".to_string(),
        error: error.map(|s| s.to_string()),
        error_description: None,
    };
    match r.on_callback_wait("st", 2, "srv", CallbackWait::Received(cb(None, Some("access_denied"))), 300) {
        CallbackStep::Done(e) => {
            assert!(!e.success);
            assert_eq!(e.error, Some("access_denied".to_string()));
        }
        other => panic!("unexpected {:?}", other),
    }
    assert!(r.is_known_state("st"));
    match r.on_callback_wait("st", 2, "srv", CallbackWait::Received(cb(Some("c0de"), None)), 300) {
        CallbackStep::Exchange { code } => assert_eq!(code, "c0de"),
        other => panic!("unexpected {:?}", other),
    }
    let e = r.on_token_exchange("st", 2, "srv", Ok(()), 5_000);
    assert!(e.success);
    assert!(r.has_completed(2, "srv", 5_000));
    assert!(!r.is_known_state("st"));
    match r.on_callback_wait("st", 2, "srv", CallbackWait::Received(cb(Some("c0de"), None)), 300) {
        CallbackStep::Done(e) => assert_eq!(e.error, Some("OAuth state not found".to_string())),
        other => panic!("unexpected {:?}", other),
    }
    r.record_oauth_state("s2".to_string());
    match r.on_callback_wait("s2", 2, "srv", CallbackWait::TimedOut, 300) {
        CallbackStep::Done(e) => assert_eq!(e.error, Some("Timeout after 300s".to_string())),
        other => panic!("unexpected {:?}", other),
    }
    assert!(!r.is_known_state("s2"));
    r.record_oauth_state("s3".to_string());
    let e = r.on_token_exchange("s3", 2, "srv", Err("bad code".to_string()), 6_000);
    assert_eq!(e.error, Some("Token exchange failed: bad code".to_string()));
}
