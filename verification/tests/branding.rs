use mcpmux::branding::{
    api_url, deep_link_prefix, is_deep_link, is_oauth_callback, oauth_callback_path,
    oauth_callback_uri_with_port, outbound_dcr_metadata, outbound_oauth_client_name,
    outbound_oauth_client_name_for_space, schema_url, window_title, API_DOMAIN, DEEP_LINK_SCHEME,
    DEFAULT_GATEWAY_PORT, DEFAULT_OAUTH_CALLBACK_PORT, DISPLAY_NAME, DOMAIN, IDENTIFIER,
    KEYCHAIN_SERVICE, LOG_PREFIX,
};

#[test]
fn test_constants_populated() {
    assert!(!DISPLAY_NAME.is_empty());
    assert!(IDENTIFIER.starts_with("com."));
    assert!(!DEEP_LINK_SCHEME.is_empty());
    assert!(!DOMAIN.is_empty());
    assert!(!API_DOMAIN.is_empty());
    assert!(!KEYCHAIN_SERVICE.is_empty());
    assert!(!LOG_PREFIX.is_empty());
}

#[test]
fn test_deep_link_prefix() {
    let prefix = deep_link_prefix();
    assert!(prefix.ends_with("://"));
    assert_eq!(prefix, format!("{}://", DEEP_LINK_SCHEME));
}

#[test]
fn test_is_deep_link() {
    let scheme = DEEP_LINK_SCHEME;
    assert!(is_deep_link(&format!("{}://authorize", scheme)));
    assert!(is_deep_link(&format!("{}://callback?code=123", scheme)));
    assert!(!is_deep_link("https://example.com"));
    assert!(!is_deep_link("http://localhost:3000"));
}

#[test]
fn test_api_url() {
    let url = api_url("/v1/servers");
    assert!(url.starts_with("https://"));
    assert!(url.contains(API_DOMAIN));
    assert!(url.ends_with("/v1/servers"));

    let url2 = api_url("v1/servers");
    assert_eq!(url, url2);
}

#[test]
fn test_schema_url() {
    let url = schema_url("server-definition.json");
    assert!(url.starts_with("https://"));
    assert!(url.contains(DOMAIN));
    assert!(url.contains("/schemas/"));
    assert!(url.ends_with("server-definition.json"));
}

#[test]
fn test_window_title() {
    let title = window_title("Settings");
    assert!(title.contains(DISPLAY_NAME));
    assert!(title.contains("Settings"));
}

#[test]
fn test_oauth_callback_path() {
    let path = oauth_callback_path();
    assert!(path.starts_with('/'));
    assert_eq!(path, "/oauth2redirect");
}

#[test]
fn test_oauth_callback_uri_with_port() {
    let uri = oauth_callback_uri_with_port(9876);
    assert!(uri.starts_with("http://127.0.0.1:"));
    assert!(uri.contains(":9876"));
    assert!(uri.ends_with("/oauth2redirect"));
    assert_eq!(uri, "http://127.0.0.1:9876/oauth2redirect");
}

#[test]
fn test_is_oauth_callback() {
    assert!(is_oauth_callback("http://127.0.0.1:9876/oauth2redirect"));
    assert!(is_oauth_callback(
        "http://127.0.0.1:9876/oauth2redirect?code=123&state=abc"
    ));
    assert!(is_oauth_callback(
        "http://127.0.0.1:51234/oauth2redirect?error=access_denied"
    ));

    assert!(is_oauth_callback("http://[::1]:9876/oauth2redirect"));
    assert!(is_oauth_callback("http://[::1]:9876/oauth2redirect?code=123"));

    assert!(!is_oauth_callback("https://127.0.0.1:9876/oauth2redirect"));
    assert!(!is_oauth_callback("http://localhost:9876/oauth2redirect"));
    assert!(!is_oauth_callback("http://127.0.0.1:9876/callback"));
    assert!(!is_oauth_callback("https://example.com/oauth2redirect"));
    assert!(!is_oauth_callback("mcpmux://callback/oauth"));
}

#[test]
fn test_default_gateway_port_reexport() {
    assert_eq!(DEFAULT_GATEWAY_PORT, 45818);
}

#[test]
fn api_url_strips_every_leading_slash() {
    assert_eq!(api_url("///v1/x"), "https://api.mcpmux.com/v1/x");
    assert_eq!(api_url(""), "https://api.mcpmux.com/");
}

#[test]
fn schema_and_title_exact_values() {
    assert_eq!(schema_url("a.json"), "https://mcpmux.com/schemas/a.json");
    assert_eq!(window_title("Settings"), "McpMux — Settings");
    assert_eq!(deep_link_prefix(), "mcpmux://");
}

#[test]
fn client_name_for_space() {
    assert_eq!(outbound_oauth_client_name(), "McpMux");
    assert_eq!(outbound_oauth_client_name_for_space(Some("Work")), "McpMux (Work)");
    assert_eq!(outbound_oauth_client_name_for_space(Some("")), "McpMux");
    assert_eq!(outbound_oauth_client_name_for_space(None), "McpMux");
}

#[test]
fn callback_uri_edge_ports() {
    assert_eq!(oauth_callback_uri_with_port(0), "http://127.0.0.1:0/oauth2redirect");
    assert_eq!(
        oauth_callback_uri_with_port(DEFAULT_OAUTH_CALLBACK_PORT),
        "http://127.0.0.1:45819/oauth2redirect"
    );
    assert_eq!(oauth_callback_uri_with_port(65535), "http://127.0.0.1:65535/oauth2redirect");
}

#[test]
fn unconfigured_branding_has_no_dcr_metadata() {
    assert!(outbound_dcr_metadata().is_empty());
}
