use mcpmux::dcr::{
    merge_redirect_uris, new_dcr_client_id, plan_dcr_registration, redirect_uri_matches,
    register_dcr_client, lookup_failed, save_failed, validate_redirect_uris, DcrError, DcrRequest, InboundClient,
    RegistrationType,
};

#[test]
fn test_validate_loopback_uris() {
    assert!(validate_redirect_uris(&["http://127.0.0.1:8080/callback".to_string()]).is_ok());
    assert!(validate_redirect_uris(&["http://localhost:3000/callback".to_string()]).is_ok());
    assert!(validate_redirect_uris(&["http://[::1]:8080/callback".to_string()]).is_ok());
}

#[test]
fn test_validate_custom_scheme_uris() {
    assert!(validate_redirect_uris(&["cursor://callback".to_string()]).is_ok());
    assert!(validate_redirect_uris(&["vscode://callback".to_string()]).is_ok());
    assert!(validate_redirect_uris(&["zed://auth/callback".to_string()]).is_ok());
}

#[test]
fn test_reject_invalid_uris() {
    assert!(validate_redirect_uris(&["http://example.com/callback".to_string()]).is_err());
    assert!(validate_redirect_uris(&["https://example.com/callback".to_string()]).is_err());
}

#[test]
fn test_loopback_ipv4_valid() {
    assert!(validate_redirect_uris(&["http://127.0.0.1:8080/callback".to_string()]).is_ok());
    assert!(validate_redirect_uris(&["http://127.0.0.1/oauth".to_string()]).is_ok());
    assert!(validate_redirect_uris(&["http://127.0.0.1:3000/auth/callback".to_string()]).is_ok());
}

#[test]
fn test_loopback_localhost_valid() {
    assert!(validate_redirect_uris(&["http://localhost:8080/callback".to_string()]).is_ok());
    assert!(validate_redirect_uris(&["http://localhost/oauth".to_string()]).is_ok());
    assert!(validate_redirect_uris(&["http://localhost:9999/".to_string()]).is_ok());
}

#[test]
fn test_loopback_ipv6_valid() {
    assert!(validate_redirect_uris(&["http://[::1]:8080/callback".to_string()]).is_ok());
    assert!(validate_redirect_uris(&["http://[::1]/oauth".to_string()]).is_ok());
}

#[test]
fn test_custom_scheme_valid() {
    assert!(validate_redirect_uris(&["cursor://callback".to_string()]).is_ok());
    assert!(validate_redirect_uris(&["vscode://callback".to_string()]).is_ok());
    assert!(validate_redirect_uris(&["zed://auth/callback".to_string()]).is_ok());
    assert!(validate_redirect_uris(&["myapp://oauth".to_string()]).is_ok());
    assert!(validate_redirect_uris(&["com.example.app://callback".to_string()]).is_ok());
}

#[test]
fn test_multiple_valid_uris() {
    let uris = vec![
        "http://127.0.0.1:8080/callback".to_string(),
        "cursor://callback".to_string(),
        "http://localhost:3000/auth".to_string(),
    ];
    assert!(validate_redirect_uris(&uris).is_ok());
}

#[test]
fn test_empty_uris_rejected() {
    let result = validate_redirect_uris(&[]);
    assert!(result.is_err());
    match result {
        Err(e) => assert!(e.error_description.unwrap().contains("At least one")),
        Ok(_) => panic!("Expected error"),
    }
}

#[test]
fn test_external_http_rejected() {
    let result = validate_redirect_uris(&["http://example.com/callback".to_string()]);
    assert!(result.is_err());
}

#[test]
fn test_external_https_rejected() {
    let result = validate_redirect_uris(&["https://example.com/callback".to_string()]);
    assert!(result.is_err());
}

#[test]
fn test_mixed_valid_invalid_rejected() {
    let uris = vec![
        "http://127.0.0.1:8080/callback".to_string(),
        "https://evil.com/steal".to_string(),
    ];
    assert!(validate_redirect_uris(&uris).is_err());
}

#[test]
fn test_dcr_error_invalid_redirect_uri() {
    let error = DcrError::invalid_redirect_uri("Bad URI format");
    assert_eq!(error.error, "invalid_redirect_uri");
    assert_eq!(error.error_description, Some("Bad URI format".to_string()));
}

#[test]
fn test_dcr_error_invalid_client_metadata() {
    let error = DcrError::invalid_client_metadata("Missing required field");
    assert_eq!(error.error, "invalid_client_metadata");
    assert_eq!(
        error.error_description,
        Some("Missing required field".to_string())
    );
}

fn minimal_dcr_request() -> DcrRequest {
    DcrRequest {
        client_name: "Test Client".to_string(),
        redirect_uris: vec!["http://127.0.0.1:8080/callback".to_string()],
        grant_types: vec![],
        response_types: vec![],
        token_endpoint_auth_method: None,
        scope: None,
        logo_uri: None,
        client_uri: None,
        tos_uri: None,
        policy_uri: None,
        contacts: None,
        software_id: None,
        software_version: None,
    }
}

#[test]
fn test_dcr_request_with_minimal_fields() {
    let request = minimal_dcr_request();

    assert_eq!(request.client_name, "Test Client");
    assert_eq!(request.redirect_uris.len(), 1);
    assert!(request.grant_types.is_empty());
    assert!(request.response_types.is_empty());
    assert!(request.scope.is_none());
}

#[test]
fn test_dcr_request_with_full_fields() {
    let request = DcrRequest {
        client_name: "Cursor IDE".to_string(),
        redirect_uris: vec![
            "cursor://callback".to_string(),
            "http://127.0.0.1:8080/callback".to_string(),
        ],
        grant_types: vec![
            "authorization_code".to_string(),
            "refresh_token".to_string(),
        ],
        response_types: vec!["code".to_string()],
        token_endpoint_auth_method: Some("none".to_string()),
        scope: Some("openid mcp:read mcp:write".to_string()),
        logo_uri: Some("https://cursor.com/logo.png".to_string()),
        client_uri: Some("https://cursor.com".to_string()),
        tos_uri: Some("https://cursor.com/tos".to_string()),
        policy_uri: Some("https://cursor.com/privacy".to_string()),
        contacts: Some(vec!["support@cursor.com".to_string()]),
        software_id: Some("com.cursor.app".to_string()),
        software_version: Some("1.0.0".to_string()),
    };

    assert_eq!(request.client_name, "Cursor IDE");
    assert_eq!(request.redirect_uris.len(), 2);
    assert_eq!(request.grant_types.len(), 2);
    assert_eq!(request.scope, Some("openid mcp:read mcp:write".to_string()));
    assert_eq!(request.software_id, Some("com.cursor.app".to_string()));
}

#[test]
fn test_redirect_uri_exact_match() {
    let registered = vec!["cursor://auth/callback".to_string()];
    assert!(redirect_uri_matches(&registered, "cursor://auth/callback"));
    assert!(!redirect_uri_matches(&registered, "cursor://auth/other"));
}

#[test]
fn test_redirect_uri_loopback_ignores_port() {
    let registered = vec!["http://127.0.0.1:8080/callback".to_string()];
    assert!(redirect_uri_matches(&registered, "http://127.0.0.1:3000/callback"));
    assert!(redirect_uri_matches(&registered, "http://127.0.0.1:59123/callback"));
    assert!(redirect_uri_matches(&registered, "http://127.0.0.1/callback"));
}

#[test]
fn test_redirect_uri_localhost_ignores_port() {
    let registered = vec!["http://localhost:8080/callback".to_string()];
    assert!(redirect_uri_matches(&registered, "http://localhost:3000/callback"));
    assert!(redirect_uri_matches(&registered, "http://localhost/callback"));
}

#[test]
fn test_redirect_uri_ipv6_loopback_ignores_port() {
    let registered = vec!["http://[::1]:8080/callback".to_string()];
    assert!(redirect_uri_matches(&registered, "http://[::1]:3000/callback"));
    assert!(redirect_uri_matches(&registered, "http://[::1]/callback"));
}

#[test]
fn test_redirect_uri_loopback_path_must_match() {
    let registered = vec!["http://127.0.0.1:8080/callback".to_string()];
    assert!(!redirect_uri_matches(&registered, "http://127.0.0.1:8080/other"));
    assert!(!redirect_uri_matches(&registered, "http://127.0.0.1:8080/"));
}

#[test]
fn test_redirect_uri_custom_scheme_exact_only() {
    let registered = vec!["cursor://auth/callback".to_string()];
    assert!(redirect_uri_matches(&registered, "cursor://auth/callback"));
    assert!(!redirect_uri_matches(&registered, "cursor://auth/other"));
    assert!(!redirect_uri_matches(&registered, "vscode://auth/callback"));
}

#[test]
fn test_redirect_uri_no_cross_host_loopback() {
    let registered = vec!["http://127.0.0.1:8080/callback".to_string()];
    assert!(!redirect_uri_matches(&registered, "http://localhost:8080/callback"));
}

fn stored_client(uris: Vec<&str>) -> InboundClient {
    InboundClient {
        client_id: "mcp_abcdef12".to_string(),
        registration_type: RegistrationType::Dcr,
        client_name: "Test Client".to_string(),
        client_alias: Some("My Cursor".to_string()),
        redirect_uris: uris.into_iter().map(|u| u.to_string()).collect(),
        grant_types: vec!["authorization_code".to_string()],
        response_types: vec!["code".to_string()],
        token_endpoint_auth_method: "none".to_string(),
        scope: None,
        approved: true,
        logo_uri: None,
        client_uri: None,
        software_id: None,
        software_version: None,
        metadata_url: None,
        metadata_cached_at: None,
        metadata_cache_ttl: None,
        connection_mode: "locked".to_string(),
        locked_space_id: Some("space-1".to_string()),
        last_seen: Some("2024-01-01T00:00:00Z".to_string()),
        created_at: "2024-01-01T00:00:00Z".to_string(),
        updated_at: "2024-01-01T00:00:00Z".to_string(),
    }
}

#[test]
fn merge_keeps_old_and_appends_new_uris() {
    let merged = merge_redirect_uris(
        vec!["a://1".to_string(), "b://2".to_string()],
        &["b://2".to_string(), "c://3".to_string(), "c://3".to_string()],
    );
    assert_eq!(merged, vec!["a://1", "b://2", "c://3"]);
    let again = merge_redirect_uris(merged.clone(), &["b://2".to_string(), "c://3".to_string()]);
    assert_eq!(again, merged);
}

#[test]
fn new_registration_gets_defaults() {
    let (client, response) = plan_dcr_registration(
        minimal_dcr_request(),
        None,
        "mcp_12345678".to_string(),
        "2024-05-01T10:00:00Z".to_string(),
        1714557600,
    )
    .unwrap();
    assert_eq!(client.client_id, "mcp_12345678");
    assert_eq!(client.grant_types, vec!["authorization_code", "refresh_token"]);
    assert_eq!(client.response_types, vec!["code"]);
    assert_eq!(client.token_endpoint_auth_method, "none");
    assert_eq!(client.connection_mode, "follow_active");
    assert_eq!(client.last_seen, Some("2024-05-01T10:00:00Z".to_string()));
    assert!(!client.approved);
    assert_eq!(client.registration_type, RegistrationType::Dcr);
    assert_eq!(response.client_id, "mcp_12345678");
    assert_eq!(response.client_id_issued_at, 1714557600);
    assert_eq!(response.redirect_uris, vec!["http://127.0.0.1:8080/callback"]);
}

#[test]
fn re_registration_keeps_id_and_user_settings() {
    let mut request = minimal_dcr_request();
    request.redirect_uris = vec!["http://127.0.0.1:9000/cb".to_string()];
    let existing = stored_client(vec!["http://127.0.0.1:8080/callback"]);
    let (client, response) = plan_dcr_registration(
        request,
        Some(existing),
        "unused".to_string(),
        "2024-06-01T00:00:00Z".to_string(),
        7,
    )
    .unwrap();
    assert_eq!(client.client_id, "mcp_abcdef12");
    assert_eq!(
        client.redirect_uris,
        vec!["http://127.0.0.1:8080/callback", "http://127.0.0.1:9000/cb"]
    );
    assert_eq!(client.client_alias, Some("My Cursor".to_string()));
    assert_eq!(client.connection_mode, "locked");
    assert_eq!(client.created_at, "2024-01-01T00:00:00Z");
    assert_eq!(client.updated_at, "2024-06-01T00:00:00Z");
    assert!(!client.approved);
    assert_eq!(response.redirect_uris, client.redirect_uris);
}

#[test]
fn registration_with_bad_uri_is_refused() {
    let mut request = minimal_dcr_request();
    request.redirect_uris = vec!["https://evil.com/x".to_string()];
    let err = plan_dcr_registration(request, None, "id".to_string(), "t".to_string(), 0).unwrap_err();
    assert_eq!(err.error, "invalid_redirect_uri");
    let mut request = minimal_dcr_request();
    request.redirect_uris = vec![];
    let err = register_dcr_client(request, |_: String| -> Result<Option<InboundClient>, String> {
        panic!("the lookup comes after validation")
    })
    .unwrap_err();
    assert_eq!(
        err.error_description,
        Some("At least one redirect_uri is required".to_string())
    );
}

#[test]
fn fresh_client_ids_have_prefix() {
    let id = new_dcr_client_id();
    assert!(id.starts_with("mcp_"));
    assert_eq!(id.len(), 12);
    assert!(id[4..].chars().all(|c| c.is_ascii_digit() || ('a'..='f').contains(&c)));
    let (client, _) = register_dcr_client(minimal_dcr_request(), |_: String| Ok(None)).unwrap();
    assert!(client.client_id.starts_with("mcp_"));
    assert_eq!(client.created_at, client.updated_at);
}

#[test]
fn loopback_lookalike_hosts_rejected() {
    assert!(validate_redirect_uris(&["http://localhost.evil.com/callback".to_string()]).is_err());
    assert!(validate_redirect_uris(&["http://127.0.0.1.evil.com/callback".to_string()]).is_err());
    assert!(validate_redirect_uris(&["http://localhost@evil.com/callback".to_string()]).is_err());
    let registered = vec!["http://localhost.evil.com:8080/callback".to_string()];
    assert!(!redirect_uri_matches(&registered, "http://localhost.evil.com:9000/callback"));
}

#[test]
fn registration_lookup_by_name_and_its_errors() {
    let err = register_dcr_client(minimal_dcr_request(), |_: String| Err("locked".to_string())).unwrap_err();
    assert_eq!(err.error, "invalid_client_metadata");
    assert_eq!(err.error_description, Some("Database error: locked".to_string()));
    let existing = stored_client(vec!["http://127.0.0.1:8080/callback"]);
    let (client, _) = register_dcr_client(minimal_dcr_request(), move |name: String| {
        assert_eq!(name, minimal_dcr_request().client_name);
        Ok(Some(existing))
    })
    .unwrap();
    assert_eq!(client.client_id, "mcp_abcdef12");
    assert_eq!(lookup_failed("x").error_description, Some("Database error: x".to_string()));
    assert_eq!(save_failed("y").error_description, Some("Failed to save client: y".to_string()));
}
