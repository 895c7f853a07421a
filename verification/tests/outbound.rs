use mcpmux::outbound::{
    callback_port_candidates, handle_callback_result, route_callback, should_persist_port,
    CallbackRoute, add_resource_parameter, callback_outcome, extract_state_from_url, flow_start,
    get_redirect_uri_with_port, get_scopes_from_metadata, join_scopes, outbound_dcr_request,
    CallbackWait, FlowStart, OAuthCallback, OAuthTokenInfo, registration_path, registered_client,
    not_supported_result, RegistrationPath, OAuthInitResult, begin_flow,
};

fn token(expires_at: Option<i64>, refresh: bool) -> OAuthTokenInfo {
    OAuthTokenInfo {
        access_token: "a".to_string(),
        refresh_token: if refresh { Some("r".to_string()) } else { None },
        expires_at,
        token_type: "Bearer".to_string(),
        scope: None,
    }
}

#[test]
fn token_expiry_has_five_minute_buffer() {
    assert!(!token(Some(1000), false).is_expired(699));
    assert!(!token(Some(1000), false).is_expired(700));
    assert!(token(Some(1000), false).is_expired(701));
    assert!(!token(None, false).is_expired(i64::MAX));
    assert!(token(Some(0), true).can_refresh());
}

#[test]
fn flow_start_decisions() {
    assert_eq!(flow_start(true, None, 0), FlowStart::AlreadyPending);
    assert_eq!(flow_start(false, None, 0), FlowStart::Fresh);
    assert_eq!(flow_start(false, Some(&token(Some(10), false)), 1000), FlowStart::Fresh);
    assert_eq!(flow_start(false, Some(&token(Some(10), true)), 1000), FlowStart::TryStoredToken);
    assert_eq!(flow_start(false, Some(&token(None, false)), 1000), FlowStart::TryStoredToken);
}

#[test]
fn scopes_and_joining() {
    assert!(get_scopes_from_metadata(&None).is_empty());
    assert!(get_scopes_from_metadata(&Some(vec![])).is_empty());
    let s = get_scopes_from_metadata(&Some(vec!["read".to_string(), "write".to_string()]));
    assert_eq!(s, vec!["read", "write"]);
    assert_eq!(join_scopes(&s), "read write");
    assert_eq!(join_scopes(&vec![]), "");
}

#[test]
fn resource_parameter_and_state() {
    let u = add_resource_parameter("https://auth.example.com/authorize?state=abc", "https://mcp.example.com/");
    assert_eq!(
        u,
        "https://auth.example.com/authorize?state=abc&resource=https%3A%2F%2Fmcp.example.com%2F"
    );
    assert_eq!(add_resource_parameter("not a url", "x"), "not a url");
    assert_eq!(extract_state_from_url(&u), Some("abc".to_string()));
    assert_eq!(extract_state_from_url("https://a/?x=1"), None);
    assert_eq!(extract_state_from_url("::"), None);
    assert_eq!(extract_state_from_url("https://a/?state=1&state=2"), Some("1".to_string()));
}

#[test]
fn redirect_uri_uses_loopback() {
    assert_eq!(get_redirect_uri_with_port(33418), "http://127.0.0.1:33418/oauth2redirect");
}

fn cb(code: Option<&str>, error: Option<&str>, desc: Option<&str>) -> OAuthCallback {
    OAuthCallback {
        code: code.map(|s| s.to_string()),
        state: "s".to_string(),
        error: error.map(|s| s.to_string()),
        error_description: desc.map(|s| s.to_string()),
    }
}

#[test]
fn callback_outcomes() {
    assert_eq!(callback_outcome(CallbackWait::Received(cb(Some("c"), None, None)), 300), Ok("c".to_string()));
    assert_eq!(
        callback_outcome(CallbackWait::Received(cb(Some("c"), Some("access_denied"), Some("nope"))), 300),
        Err("access_denied: nope".to_string())
    );
    assert_eq!(
        callback_outcome(CallbackWait::Received(cb(None, Some("access_denied"), None)), 300),
        Err("access_denied".to_string())
    );
    assert_eq!(
        callback_outcome(CallbackWait::Received(cb(None, None, None)), 300),
        Err("Missing authorization code".to_string())
    );
    assert_eq!(callback_outcome(CallbackWait::Cancelled, 300), Err("Flow cancelled".to_string()));
    assert_eq!(callback_outcome(CallbackWait::TimedOut, 300), Err("Timeout after 300s".to_string()));
}

#[test]
fn registration_request_body() {
    let r = outbound_dcr_request(
        "McpMux (Work)".to_string(),
        "http://127.0.0.1:45819/oauth2redirect".to_string(),
        &vec!["a".to_string(), "b".to_string()],
    );
    assert_eq!(r.grant_types, vec!["authorization_code", "refresh_token"]);
    assert_eq!(r.response_types, vec!["code"]);
    assert_eq!(r.token_endpoint_auth_method, "none");
    assert_eq!(r.scope, Some("a b".to_string()));
    assert!(r.branding.is_empty());
    let r = outbound_dcr_request("x".to_string(), "y".to_string(), &vec![]);
    assert_eq!(r.scope, None);
}

#[test]
fn callback_port_order_and_persistence() {
    assert_eq!(callback_port_candidates(Some(50000)), vec![50000, 45819, 0]);
    assert_eq!(callback_port_candidates(None), vec![45819, 0]);
    assert!(should_persist_port(None, 45819));
    assert!(should_persist_port(Some(50000), 45819));
    assert!(!should_persist_port(Some(45819), 45819));
}

#[test]
fn callback_routing_answers() {
    assert_eq!(route_callback(Some(true), false), CallbackRoute::Delivered);
    assert_eq!(handle_callback_result(route_callback(Some(true), true)), Ok(()));
    assert_eq!(
        handle_callback_result(route_callback(Some(false), true)),
        Err("OAuth flow already completed or timed out".to_string())
    );
    assert_eq!(
        handle_callback_result(route_callback(None, true)),
        Err("OAuth callback already processed".to_string())
    );
    assert_eq!(
        handle_callback_result(route_callback(None, false)),
        Err("Unknown or expired OAuth state".to_string())
    );
}

#[test]
fn registration_path_reuses_matching_registration() {
    assert_eq!(registration_path(Some(true), None), RegistrationPath::Reuse);
    assert_eq!(
        registration_path(Some(false), Some("https://as/register".to_string())),
        RegistrationPath::Register { endpoint: "https://as/register".to_string(), replaces_old: true }
    );
    assert_eq!(
        registration_path(None, Some("https://as/register".to_string())),
        RegistrationPath::Register { endpoint: "https://as/register".to_string(), replaces_old: false }
    );
    assert_eq!(registration_path(None, None), RegistrationPath::NotSupported);
    assert_eq!(registration_path(Some(false), None), RegistrationPath::NotSupported);
}

#[test]
fn registration_response_needs_client_id() {
    assert_eq!(
        registered_client(Some("cid".to_string()), None),
        Ok(("cid".to_string(), None))
    );
    assert_eq!(
        registered_client(None, Some("s".to_string())),
        Err("DCR response missing client_id".to_string())
    );
    match not_supported_result() {
        OAuthInitResult::NotSupported(m) => {
            assert_eq!(m, "Server doesn't support Dynamic Client Registration")
        }
        _ => panic!("expected NotSupported"),
    }
}

#[test]
fn pending_flow_is_refused_with_its_error() {
    let space = 0x0123_4567_89ab_cdef_0123_4567_89ab_cdefu128;
    assert_eq!(
        begin_flow(true, None, 0, space, "github"),
        Err("OAuth flow already in progress for 01234567-89ab-cdef-0123-456789abcdef/github".to_string())
    );
    assert_eq!(begin_flow(false, None, 0, space, "github"), Ok(FlowStart::Fresh));
    let t = token(Some(1000), false);
    assert_eq!(begin_flow(false, Some(&t), 0, space, "github"), Ok(FlowStart::TryStoredToken));
}
