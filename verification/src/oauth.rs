//! OAuth configuration of a remote server.

use vstd::prelude::*;

use crate::text::owned;

verus! {

/// OAuth configuration for a server.
#[derive(Debug, Clone)]
pub struct OAuthConfig {
    /// Issuer URL (e.g. https://auth.atlassian.com)
    pub issuer: String,
    /// OAuth scopes to request
    pub scopes: Vec<String>,
    /// Client ID (from discovery or pre-configured)
    pub client_id: Option<String>,
    /// Client secret (from discovery or pre-configured)
    pub client_secret: Option<String>,
}

impl OAuthConfig {
    /// A configuration with just the issuer: scope "openid" and no client.
    pub fn new(issuer: String) -> (r: Self)
        ensures
            r.issuer == issuer,
            r.scopes@.len() == 1 && r.scopes@[0]@ == "openid"@,
            r.client_id is None && r.client_secret is None,
    {
        OAuthConfig { issuer, scopes: vec![owned("openid")], client_id: None, client_secret: None }
    }

    /// This configuration with the given scopes.
    pub fn with_scopes(self, scopes: Vec<String>) -> (r: Self)
        ensures
            r.scopes == scopes,
            r.issuer == self.issuer && r.client_id == self.client_id && r.client_secret == self.client_secret,
    {
        OAuthConfig { scopes, ..self }
    }

    /// This configuration with the given client credentials.
    pub fn with_client(self, client_id: String, client_secret: Option<String>) -> (r: Self)
        ensures
            r.client_id == Some(client_id) && r.client_secret == client_secret,
            r.issuer == self.issuer && r.scopes == self.scopes,
    {
        OAuthConfig { client_id: Some(client_id), client_secret, ..self }
    }
}

} // verus!
