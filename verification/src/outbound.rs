//! Decisions of the outbound OAuth flow (the gateway authenticating with a
//! remote server): token freshness, scopes, the authorization URL, the
//! client registration request and the callback's outcome.

use vstd::prelude::*;

use crate::branding::{DEFAULT_OAUTH_CALLBACK_PORT, dcr_metadata_fields, oauth_callback_uri_with_port, outbound_dcr_metadata, callback_path};
use crate::feature::join2;
use crate::text::{uuid_hyphenated, uuid_string, copy_strings, decimal, owned, push_char, str_eq, views};
use crate::uri::{append_query_pair, parse_query_pairs, url_query_pairs, url_with_query_pair};

verus! {

/// Seconds before expiry at which a token counts as expired.
pub const EXPIRY_BUFFER_SECS: i64 = 300;

/// OAuth callback parameters from the browser redirect.
#[derive(Debug, Clone)]
pub struct OAuthCallback {
    /// Authorization code (absent when an error occurred)
    pub code: Option<String>,
    /// State parameter
    pub state: String,
    /// Error code
    pub error: Option<String>,
    /// Error description
    pub error_description: Option<String>,
}

/// Result of starting an OAuth flow.
#[derive(Debug)]
pub enum OAuthInitResult {
    /// Flow started: the browser should open `auth_url`
    Initiated { auth_url: String },
    /// Valid credentials exist already
    AlreadyAuthorized,
    /// The server does not support OAuth
    NotSupported(String),
}

/// A stored token, for status checks. `expires_at` is in seconds since the
/// UNIX epoch.
#[derive(Debug, Clone)]
pub struct OAuthTokenInfo {
    /// Access token
    pub access_token: String,
    /// Refresh token
    pub refresh_token: Option<String>,
    /// Expiry time
    pub expires_at: Option<i64>,
    /// Token type
    pub token_type: String,
    /// Granted scope
    pub scope: Option<String>,
}

/// A token with an expiry counts as expired from five minutes before it.
pub open spec fn expired_at(expires_at: Option<i64>, now: i64) -> bool {
    match expires_at {
        Some(t) => t - EXPIRY_BUFFER_SECS < now,
        None => false,
    }
}

impl OAuthTokenInfo {
    /// Whether the token is expired or expires within five minutes of `now`.
    pub fn is_expired(&self, now: i64) -> (b: bool)
        ensures
            b == expired_at(self.expires_at, now),
    {
        match self.expires_at {
            Some(t) => (t as i128) - (EXPIRY_BUFFER_SECS as i128) < (now as i128),
            None => false,
        }
    }

    /// Whether the token can be refreshed.
    pub fn can_refresh(&self) -> (b: bool)
        ensures
            b == self.refresh_token is Some,
    {
        self.refresh_token.is_some()
    }
}

/// What starting a flow does before anything else.
#[derive(Debug, Clone, Copy, PartialEq, Eq, Structural)]
pub enum FlowStart {
    /// A flow for this server is pending: refuse
    AlreadyPending,
    /// A stored token is valid or refreshable: try it first
    TryStoredToken,
    /// Start a fresh authorization
    Fresh,
}

/// The first decision of `start_oauth_flow`: refuse while a flow is pending;
/// try a stored token that is not expired or can be refreshed; else start
/// afresh.
pub fn flow_start(pending: bool, stored: Option<&OAuthTokenInfo>, now: i64) -> (r: FlowStart)
    ensures
        r == if pending {
            FlowStart::AlreadyPending
        } else if stored matches Some(t) && (!expired_at(t.expires_at, now) || t.refresh_token is Some) {
            FlowStart::TryStoredToken
        } else {
            FlowStart::Fresh
        },
{
    if pending {
        return FlowStart::AlreadyPending;
    }
    match stored {
        Some(t) => {
            if !t.is_expired(now) || t.can_refresh() {
                FlowStart::TryStoredToken
            } else {
                FlowStart::Fresh
            }
        },
        None => FlowStart::Fresh,
    }
}

/// The error for a flow refused because one is pending:
/// "OAuth flow already in progress for {space}/{server}", the space ID in
/// its hyphenated UUID form.
pub open spec fn already_pending_message(space_id: u128, server_id: Seq<char>) -> Seq<char> {
    "OAuth flow already in progress for "@ + uuid_hyphenated(space_id) + "/"@ + server_id
}

/// How `start_oauth_flow` begins: a pending flow for the server refuses the
/// request with its error; otherwise the start decision of `flow_start`.
pub fn begin_flow(
    pending: bool,
    stored: Option<&OAuthTokenInfo>,
    now: i64,
    space_id: u128,
    server_id: &str,
) -> (r: Result<FlowStart, String>)
    ensures
        pending ==> (r matches Err(m) && m@ == already_pending_message(space_id, server_id@)),
        !pending ==> r == Ok::<FlowStart, String>(
            if stored matches Some(t) && (!expired_at(t.expires_at, now) || t.refresh_token is Some) {
                FlowStart::TryStoredToken
            } else {
                FlowStart::Fresh
            },
        ),
{
    match flow_start(pending, stored, now) {
        FlowStart::AlreadyPending => {
            let mut m = owned("OAuth flow already in progress for ");
            let id = uuid_string(space_id);
            m.append(id.as_str());
            m.append("/");
            m.append(server_id);
            proof {
                reveal_strlit("/");
            }
            Err(m)
        },
        other => Ok(other),
    }
}

/// The scopes to request: those the server advertises, none when it
/// advertises none or an empty list (the server then applies its default).
pub fn get_scopes_from_metadata(scopes_supported: &Option<Vec<String>>) -> (r: Vec<String>)
    ensures
        r@ == match *scopes_supported {
            Some(s) => s@,
            None => seq![],
        },
{
    match scopes_supported {
        Some(s) => {
            if s.len() > 0 {
                copy_strings(s)
            } else {
                Vec::new()
            }
        },
        None => Vec::new(),
    }
}

/// The scopes joined by single spaces.
pub open spec fn joined(v: Seq<Seq<char>>) -> Seq<char>
    decreases v.len(),
{
    if v.len() == 0 {
        seq![]
    } else if v.len() == 1 {
        v[0]
    } else {
        joined(v.drop_last()) + seq![' '] + v.last()
    }
}

/// The strings joined by single spaces.
pub fn join_scopes(v: &Vec<String>) -> (r: String)
    ensures
        r@ == joined(views(v@)),
{
    let mut r = String::new();
    let mut i: usize = 0;
    while i < v.len()
        invariant
            i <= v@.len(),
            r@ == joined(views(v@.take(i as int))),
        decreases v@.len() - i,
    {
        assert(views(v@.take(i + 1)).drop_last() == views(v@.take(i as int)));
        assert(views(v@.take(i + 1)).last() == v@[i as int]@);
        if i > 0 {
            push_char(&mut r, ' ');
        }
        r.append(v[i].as_str());
        i = i + 1;
    }
    assert(v@.take(v@.len() as int) == v@);
    r
}

/// The authorization URL with the RFC 8707 `resource` parameter naming the
/// MCP server; the URL unchanged when it does not parse.
pub fn add_resource_parameter(auth_url: &str, server_url: &str) -> (r: String)
    ensures
        r@ == match url_with_query_pair(auth_url@, "resource"@, server_url@) {
            Some(u) => u,
            None => auth_url@,
        },
        url_with_query_pair(auth_url@, "resource"@, server_url@) is Some ==> (url_query_pairs(r@) matches Some(
            ps,
        ) && ps.contains(("resource"@, server_url@))),
{
    match append_query_pair(auth_url, "resource", server_url) {
        Some(u) => u,
        None => owned(auth_url),
    }
}

/// The value of the first `state` query parameter of a URL.
pub open spec fn state_param(pairs: Seq<(Seq<char>, Seq<char>)>) -> Option<Seq<char>>
    decreases pairs.len(),
{
    if pairs.len() == 0 {
        None
    } else {
        match state_param(pairs.drop_last()) {
            Some(v) => Some(v),
            None => if pairs.last().0 == "state"@ {
                Some(pairs.last().1)
            } else {
                None
            },
        }
    }
}

/// The `state` parameter of an authorization URL, if it parses and has one.
pub fn extract_state_from_url(url: &str) -> (r: Option<String>)
    ensures
        match url_query_pairs(url@) {
            Some(pairs) => match r {
                Some(s) => state_param(pairs) == Some(s@),
                None => state_param(pairs) is None,
            },
            None => r is None,
        },
{
    let pairs = match parse_query_pairs(url) {
        Some(p) => p,
        None => {
            return None;
        },
    };
    let ghost ps = pairs@.map_values(|p: (String, String)| (p.0@, p.1@));
    let mut i: usize = 0;
    while i < pairs.len()
        invariant
            i <= pairs@.len(),
            ps == pairs@.map_values(|p: (String, String)| (p.0@, p.1@)),
            url_query_pairs(url@) == Some(ps),
            state_param(ps.take(i as int)) is None,
        decreases pairs@.len() - i,
    {
        assert(ps.take(i + 1).drop_last() == ps.take(i as int));
        if str_eq(pairs[i].0.as_str(), "state") {
            let v = pairs[i].1.clone();
            proof {
                assert(ps[i as int] == (pairs@[i as int].0@, pairs@[i as int].1@));
                assert(ps.take(i + 1).last() == ps[i as int]);
                assert(state_param(ps.take(i + 1)) == Some(v@));
                lemma_state_param_prefix(ps, i + 1);
            }
            return Some(v);
        }
        i = i + 1;
    }
    assert(ps.take(pairs@.len() as int) == ps);
    None
}

/// Once a prefix holds the first `state`, the whole list gives it.
proof fn lemma_state_param_prefix(ps: Seq<(Seq<char>, Seq<char>)>, n: int)
    requires
        0 <= n <= ps.len(),
        state_param(ps.take(n)) is Some,
    ensures
        state_param(ps) == state_param(ps.take(n)),
    decreases ps.len() - n,
{
    if n < ps.len() {
        assert(ps.take(n + 1).drop_last() == ps.take(n));
        lemma_state_param_prefix(ps, n + 1);
    } else {
        assert(ps.take(n) == ps);
    }
}

/// The loopback redirect URI for the callback server's port.
pub fn get_redirect_uri_with_port(port: u16) -> (r: String)
    ensures
        r@ == "http://127.0.0.1:"@ + decimal(port as nat) + callback_path(),
{
    oauth_callback_uri_with_port(port)
}

/// What the waiting task got for a pending flow.
#[derive(Debug, Clone)]
pub enum CallbackWait {
    /// The browser redirect arrived
    Received(OAuthCallback),
    /// The flow was cancelled (the channel closed)
    Cancelled,
    /// No callback within the timeout
    TimedOut,
}

/// The message for a callback that reports an error: "error: description",
/// or the error alone.
pub open spec fn callback_error_message(error: Seq<char>, description: Option<String>) -> Seq<char> {
    match description {
        Some(d) => error + ": "@ + d@,
        None => error,
    }
}

/// The outcome of waiting for a callback: the authorization code, or the
/// message the flow fails with.
pub open spec fn callback_outcome_spec(w: CallbackWait, timeout_secs: u64) -> Result<Seq<char>, Seq<char>> {
    match w {
        CallbackWait::Received(c) => match c.error {
            Some(e) => Err(callback_error_message(e@, c.error_description)),
            None => match c.code {
                Some(code) => Ok(code@),
                None => Err("Missing authorization code"@),
            },
        },
        CallbackWait::Cancelled => Err("Flow cancelled"@),
        CallbackWait::TimedOut => Err("Timeout after "@ + decimal(timeout_secs as nat) + "s"@),
    }
}

/// Decides what a flow does with what its waiting task got: an error the
/// server reported comes first, then a missing code; a cancelled or timed
/// out flow fails.
pub fn callback_outcome(w: CallbackWait, timeout_secs: u64) -> (r: Result<String, String>)
    ensures
        match r {
            Ok(code) => callback_outcome_spec(w, timeout_secs) == Ok::<Seq<char>, Seq<char>>(code@),
            Err(m) => callback_outcome_spec(w, timeout_secs) == Err::<Seq<char>, Seq<char>>(m@),
        },
{
    match w {
        CallbackWait::Received(c) => match c.error {
            Some(e) => match c.error_description {
                Some(d) => {
                    let mut m = join2(e.as_str(), ": ");
                    m.append(d.as_str());
                    Err(m)
                },
                None => Err(e),
            },
            None => match c.code {
                Some(code) => Ok(code),
                None => Err(owned("Missing authorization code")),
            },
        },
        CallbackWait::Cancelled => Err(owned("Flow cancelled")),
        CallbackWait::TimedOut => {
            let mut m = owned("Timeout after ");
            let n = crate::branding::decimal_string(timeout_secs);
            m.append(n.as_str());
            m.append("s");
            Err(m)
        },
    }
}

/// The body of an outbound Dynamic Client Registration request (RFC 7591),
/// as the gateway sends it to a server's registration endpoint.
#[derive(Debug, Clone)]
pub struct OutboundDcrRequest {
    /// Client name shown on the consent screen
    pub client_name: String,
    /// The loopback redirect URI
    pub redirect_uris: Vec<String>,
    /// Grant types
    pub grant_types: Vec<String>,
    /// Response types
    pub response_types: Vec<String>,
    /// Token endpoint authentication method
    pub token_endpoint_auth_method: String,
    /// Branding fields (logo, client, terms, policy URIs) that are set
    pub branding: Vec<(&'static str, &'static str)>,
    /// Requested scopes, space-separated, when there are any
    pub scope: Option<String>,
}

/// Builds the registration request: a public client ("none" auth) using the
/// authorization code and refresh token grants with one redirect URI, the
/// branding fields, and the scopes when there are any.
pub fn outbound_dcr_request(client_name: String, redirect_uri: String, scopes: &Vec<String>) -> (r:
    OutboundDcrRequest)
    ensures
        r.client_name == client_name,
        views(r.redirect_uris@) == seq![redirect_uri@],
        views(r.grant_types@) == seq!["authorization_code"@, "refresh_token"@],
        views(r.response_types@) == seq!["code"@],
        r.token_endpoint_auth_method@ == "none"@,
        r.branding@.map_values(|p: (&str, &str)| (p.0@, p.1@)) == dcr_metadata_fields(),
        scopes@.len() > 0 ==> (r.scope matches Some(s) && s@ == joined(views(scopes@))),
        scopes@.len() == 0 ==> r.scope is None,
{
    let redirect_uris = vec![redirect_uri];
    let grant_types = vec![owned("authorization_code"), owned("refresh_token")];
    let response_types = vec![owned("code")];
    assert(views(grant_types@) == seq!["authorization_code"@, "refresh_token"@]);
    assert(views(response_types@) == seq!["code"@]);
    assert(views(redirect_uris@) == seq![redirect_uris@[0]@]);
    let scope = if scopes.len() > 0 {
        Some(join_scopes(scopes))
    } else {
        None
    };
    OutboundDcrRequest {
        client_name,
        redirect_uris,
        grant_types,
        response_types,
        token_endpoint_auth_method: owned("none"),
        branding: outbound_dcr_metadata(),
        scope,
    }
}

/// The ports the shared callback server tries to bind, in order: the port
/// persisted by an earlier run (if any), the default port, then any free
/// port (0).
pub fn callback_port_candidates(persisted: Option<u16>) -> (r: Vec<u16>)
    ensures
        r@ == match persisted {
            Some(p) => seq![p, DEFAULT_OAUTH_CALLBACK_PORT, 0u16],
            None => seq![DEFAULT_OAUTH_CALLBACK_PORT, 0u16],
        },
{
    let mut r: Vec<u16> = Vec::new();
    match persisted {
        Some(p) => r.push(p),
        None => {},
    }
    r.push(DEFAULT_OAUTH_CALLBACK_PORT);
    r.push(0);
    proof {
        match persisted {
            Some(p) => assert(r@ =~= seq![p, DEFAULT_OAUTH_CALLBACK_PORT, 0u16]),
            None => assert(r@ =~= seq![DEFAULT_OAUTH_CALLBACK_PORT, 0u16]),
        }
    }
    r
}

/// Whether the bound port is saved for the next run: when it is not the
/// port persisted already.
pub fn should_persist_port(persisted: Option<u16>, bound: u16) -> (b: bool)
    ensures
        b == (persisted != Some(bound)),
{
    match persisted {
        Some(p) => p != bound,
        None => true,
    }
}

/// What became of a browser callback routed by its state parameter.
#[derive(Debug, Clone, Copy, PartialEq, Eq, Structural)]
pub enum CallbackRoute {
    /// A pending flow had the state and its waiting task took the callback
    Delivered,
    /// A pending flow had the state but its waiting task was gone
    TaskGone,
    /// No pending flow had the state, but a flow with it ran before
    AlreadyProcessed,
    /// The state is unknown
    Unknown,
}

/// The answer to a callback: accepted when delivered, else the reason.
pub open spec fn callback_answer(route: CallbackRoute) -> Result<(), Seq<char>> {
    match route {
        CallbackRoute::Delivered => Ok(()),
        CallbackRoute::TaskGone => Err("OAuth flow already completed or timed out"@),
        CallbackRoute::AlreadyProcessed => Err("OAuth callback already processed"@),
        CallbackRoute::Unknown => Err("Unknown or expired OAuth state"@),
    }
}

/// How a callback is routed: to its pending flow when there is one (and
/// whether the flow's task took it), else by whether its state was seen.
pub fn route_callback(pending: Option<bool>, state_known: bool) -> (r: CallbackRoute)
    ensures
        r == match pending {
            Some(true) => CallbackRoute::Delivered,
            Some(false) => CallbackRoute::TaskGone,
            None => if state_known {
                CallbackRoute::AlreadyProcessed
            } else {
                CallbackRoute::Unknown
            },
        },
{
    match pending {
        Some(delivered) => if delivered {
            CallbackRoute::Delivered
        } else {
            CallbackRoute::TaskGone
        },
        None => if state_known {
            CallbackRoute::AlreadyProcessed
        } else {
            CallbackRoute::Unknown
        },
    }
}

/// The result `handle_callback` gives for a routed callback.
pub fn handle_callback_result(route: CallbackRoute) -> (r: Result<(), String>)
    ensures
        match r {
            Ok(()) => callback_answer(route) == Ok::<(), Seq<char>>(()),
            Err(m) => callback_answer(route) == Err::<(), Seq<char>>(m@),
        },
{
    match route {
        CallbackRoute::Delivered => Ok(()),
        CallbackRoute::TaskGone => Err(owned("OAuth flow already completed or timed out")),
        CallbackRoute::AlreadyProcessed => Err(owned("OAuth callback already processed")),
        CallbackRoute::Unknown => Err(owned("Unknown or expired OAuth state")),
    }
}

/// How a fresh flow gets its OAuth client.
#[derive(Debug, Clone, PartialEq, Eq)]
pub enum RegistrationPath {
    /// The stored registration's redirect URI matches: reuse its client ID
    Reuse,
    /// Register a new client at the endpoint; `replaces_old` when a stored
    /// registration (for another redirect URI) is deleted first
    Register { endpoint: String, replaces_old: bool },
    /// The authorization server offers no registration endpoint
    NotSupported,
}

/// The message of the `NotSupported` result when a server has no
/// registration endpoint.
pub open spec fn no_dcr_message() -> Seq<char> {
    "Server doesn't support Dynamic Client Registration"@
}

/// Chooses how a fresh flow gets its client. `stored_matches` is `None`
/// without a stored registration, else whether its redirect URI matches the
/// current one; `registration_endpoint` is what metadata discovery found.
pub fn registration_path(stored_matches: Option<bool>, registration_endpoint: Option<String>) -> (r:
    RegistrationPath)
    ensures
        stored_matches == Some(true) ==> r == RegistrationPath::Reuse,
        stored_matches != Some(true) ==> match registration_endpoint {
            Some(e) => r == RegistrationPath::Register {
                endpoint: e,
                replaces_old: stored_matches is Some,
            },
            None => r == RegistrationPath::NotSupported,
        },
{
    match stored_matches {
        Some(true) => RegistrationPath::Reuse,
        _ => match registration_endpoint {
            Some(e) => RegistrationPath::Register { endpoint: e, replaces_old: stored_matches.is_some() },
            None => RegistrationPath::NotSupported,
        },
    }
}

/// The `NotSupported` result for a server without client registration.
pub fn not_supported_result() -> (r: OAuthInitResult)
    ensures
        r matches OAuthInitResult::NotSupported(m) && m@ == no_dcr_message(),
{
    OAuthInitResult::NotSupported(owned("Server doesn't support Dynamic Client Registration"))
}

/// The client a successful registration response names: its `client_id`
/// (required) and `client_secret` (optional).
pub fn registered_client(client_id: Option<String>, client_secret: Option<String>) -> (r: Result<
    (String, Option<String>),
    String,
>)
    ensures
        match client_id {
            Some(id) => r == Ok::<(String, Option<String>), String>((id, client_secret)),
            None => r matches Err(m) && m@ == "DCR response missing client_id"@,
        },
{
    match client_id {
        Some(id) => Ok((id, client_secret)),
        None => Err(owned("DCR response missing client_id")),
    }
}

/// Once a token counts as expired it stays expired.
pub proof fn law_expiry_is_final(expires_at: Option<i64>, earlier: i64, later: i64)
    requires
        earlier <= later,
        expired_at(expires_at, earlier),
    ensures
        expired_at(expires_at, later),
{
}

} // verus!
