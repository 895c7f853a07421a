use mcpmux::credentials::{
    expires_in, expiry_of, load_credentials, load_credentials_now, should_save_registration,
    StoredAccessToken, StoredCredentials, TokenResponse, TokenRows,
};

#[test]
fn expires_in_recalculated_from_expiry() {
    assert_eq!(expires_in(Some(1010), 1000), Some(10));
    assert_eq!(expires_in(Some(1010), 1002), Some(8));
    assert_eq!(expires_in(Some(995), 1000), Some(0));
    assert_eq!(expires_in(None, 1000), None);
    assert_eq!(expires_in(Some(i64::MAX), i64::MIN), Some(u64::MAX));
}

#[test]
fn expiry_from_lifetime() {
    assert_eq!(expiry_of(Some(3600), 1000), Some(4600));
    assert_eq!(expiry_of(None, 1000), None);
}

#[test]
fn load_table() {
    assert!(load_credentials(None, None, Some("r".to_string()), 0, 0).is_none());
    let c = load_credentials(Some("cid".to_string()), None, None, 0, 5).unwrap();
    assert_eq!(c.client_id, "cid");
    assert!(c.token_response.is_none());
    assert_eq!(c.token_received_at, 5);
    let access = StoredAccessToken { value: "token123".to_string(), expires_at: Some(110) };
    let c = load_credentials(None, Some(access.clone()), Some("refresh123".to_string()), 100, 100).unwrap();
    assert_eq!(c.client_id, "");
    let t = c.token_response.unwrap();
    assert_eq!(t.access_token, "token123");
    assert_eq!(t.refresh_token, Some("refresh123".to_string()));
    assert_eq!(t.expires_in, Some(10));
    let expired = StoredAccessToken { value: "expired_token".to_string(), expires_at: Some(95) };
    let c = load_credentials(Some("c".to_string()), Some(expired), None, 100, 100).unwrap();
    assert_eq!(c.token_response.unwrap().expires_in, Some(0));
    let c = load_credentials_now(Some("c".to_string()), Some(access), None).unwrap();
    assert_eq!(c.token_response.unwrap().access_token, "token123");
}

#[test]
fn registration_saved_only_for_new_client_ids() {
    assert!(should_save_registration(None, "new-client-id"));
    assert!(should_save_registration(Some("old"), "new-client-id"));
    assert!(!should_save_registration(Some("same"), "same"));
    assert!(!should_save_registration(None, ""));
}

#[test]
fn refresh_token_preserved_when_not_in_response() {
    let mut rows = TokenRows { access: None, refresh: None };
    let creds = |refresh: Option<&str>| StoredCredentials {
        client_id: "c".to_string(),
        token_response: Some(TokenResponse {
            access_token: "a1".to_string(),
            refresh_token: refresh.map(|s| s.to_string()),
            expires_in: Some(3600),
        }),
        token_received_at: 0,
    };
    rows.save_tokens(&creds(Some("r1")), 1000);
    assert_eq!(rows.refresh, Some("r1".to_string()));
    assert_eq!(rows.access.as_ref().unwrap().expires_at, Some(4600));
    rows.save_tokens(&creds(None), 2000);
    assert_eq!(rows.refresh, Some("r1".to_string()));
    assert_eq!(rows.access.as_ref().unwrap().value, "a1");
    assert_eq!(rows.access.as_ref().unwrap().expires_at, Some(5600));
    let none = StoredCredentials { client_id: String::new(), token_response: None, token_received_at: 0 };
    rows.save_tokens(&none, 3000);
    assert_eq!(rows.refresh, Some("r1".to_string()));
}
