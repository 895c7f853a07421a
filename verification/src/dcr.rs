//! Dynamic Client Registration (RFC 7591) of MCP clients with the gateway.

use vstd::prelude::*;

use crate::feature::copy_opt;
use crate::ids::{new_uuid_u128, now_epoch_secs, now_utc_timestamp};
use crate::text::{hex_lower, is_hex_lower, lemma_hex_lower, uuid_hyphenated, uuid_string, push_char, owned, str_eq, str_starts_with, is_prefix, chars_equal, chars_of, views, contains_str, copy_strings};
use crate::uri::{parse_url, url_components, UrlParts};

verus! {

/// Dynamic Client Registration request (RFC 7591).
#[derive(Debug, Clone)]
pub struct DcrRequest {
    /// Human-readable name of the client
    pub client_name: String,
    /// Allowed redirect URIs
    pub redirect_uris: Vec<String>,
    /// OAuth 2.0 grant types the client may use
    pub grant_types: Vec<String>,
    /// OAuth 2.0 response types the client may use
    pub response_types: Vec<String>,
    /// Authentication method for the token endpoint
    pub token_endpoint_auth_method: Option<String>,
    /// Scope values the client may request
    pub scope: Option<String>,
    /// URL of the client's logo
    pub logo_uri: Option<String>,
    /// URL of the client's homepage
    pub client_uri: Option<String>,
    /// URL of the client's terms of service
    pub tos_uri: Option<String>,
    /// URL of the client's privacy policy
    pub policy_uri: Option<String>,
    /// Contact email addresses
    pub contacts: Option<Vec<String>>,
    /// Identifier of the client software
    pub software_id: Option<String>,
    /// Version of the client software
    pub software_version: Option<String>,
}

/// Dynamic Client Registration response (RFC 7591).
#[derive(Debug, Clone)]
pub struct DcrResponse {
    /// Client identifier
    pub client_id: String,
    /// Human-readable name of the client
    pub client_name: String,
    /// Allowed redirect URIs
    pub redirect_uris: Vec<String>,
    /// Grant types
    pub grant_types: Vec<String>,
    /// Response types
    pub response_types: Vec<String>,
    /// Token endpoint authentication method
    pub token_endpoint_auth_method: String,
    /// Registration time, seconds since the UNIX epoch
    pub client_id_issued_at: u64,
    /// Scope values the client may request
    pub scope: Option<String>,
    /// URL of the client's logo
    pub logo_uri: Option<String>,
    /// URL of the client's homepage
    pub client_uri: Option<String>,
    /// URL of the client's terms of service
    pub tos_uri: Option<String>,
    /// URL of the client's privacy policy
    pub policy_uri: Option<String>,
    /// Contact email addresses
    pub contacts: Option<Vec<String>>,
    /// Identifier of the client software
    pub software_id: Option<String>,
    /// Version of the client software
    pub software_version: Option<String>,
}

/// DCR error response.
#[derive(Debug, Clone)]
pub struct DcrError {
    /// Error code
    pub error: String,
    /// Human-readable error description
    pub error_description: Option<String>,
}

/// How a client came to be registered.
#[derive(Debug, Clone, Copy, PartialEq, Eq, Structural)]
pub enum RegistrationType {
    /// Dynamic Client Registration
    Dcr,
    /// Client ID metadata document
    Cimd,
}

/// A registered inbound MCP client, as stored.
#[derive(Debug, Clone)]
pub struct InboundClient {
    /// Client identifier
    pub client_id: String,
    /// How the client was registered
    pub registration_type: RegistrationType,
    /// Human-readable name
    pub client_name: String,
    /// User-set alias
    pub client_alias: Option<String>,
    /// Allowed redirect URIs
    pub redirect_uris: Vec<String>,
    /// Grant types
    pub grant_types: Vec<String>,
    /// Response types
    pub response_types: Vec<String>,
    /// Token endpoint authentication method
    pub token_endpoint_auth_method: String,
    /// Requested scope
    pub scope: Option<String>,
    /// Whether the user approved the client
    pub approved: bool,
    /// URL of the client's logo
    pub logo_uri: Option<String>,
    /// URL of the client's homepage
    pub client_uri: Option<String>,
    /// Identifier of the client software
    pub software_id: Option<String>,
    /// Version of the client software
    pub software_version: Option<String>,
    /// Metadata document URL (CIMD clients)
    pub metadata_url: Option<String>,
    /// When the metadata document was cached
    pub metadata_cached_at: Option<String>,
    /// How long the metadata document is cached
    pub metadata_cache_ttl: Option<i64>,
    /// "follow_active" or a locked mode
    pub connection_mode: String,
    /// Space the client is locked to
    pub locked_space_id: Option<String>,
    /// Last time the client was seen
    pub last_seen: Option<String>,
    /// Creation time (ISO 8601)
    pub created_at: String,
    /// Last update time (ISO 8601)
    pub updated_at: String,
}

/// A loopback host as the `url` crate renders it.
pub open spec fn loopback_host(h: Seq<char>) -> bool {
    h == "127.0.0.1"@ || h == "localhost"@ || h == "[::1]"@
}

/// A loopback redirect URI: it parses as an http URL whose host is
/// 127.0.0.1, localhost or [::1].
pub open spec fn is_loopback(u: Seq<char>) -> bool {
    match url_components(u) {
        Some((scheme, host, _path)) => scheme == "http"@ && match host {
            Some(h) => loopback_host(h),
            None => false,
        },
        None => false,
    }
}

/// A redirect URI that native apps may register (RFC 8252): loopback, or a
/// custom scheme (neither http:// nor https://).
pub open spec fn redirect_uri_allowed(u: Seq<char>) -> bool {
    is_loopback(u) || (!is_prefix("http://"@, u) && !is_prefix("https://"@, u))
}

/// The description of the error for an empty URI list.
pub open spec fn empty_uris_message() -> Seq<char> {
    "At least one redirect_uri is required"@
}

/// The description of the error for a URI that is neither loopback nor custom.
pub open spec fn bad_uri_message() -> Seq<char> {
    "Redirect URI must be loopback (http://127.0.0.1 or http://localhost) or a custom URL scheme (e.g., cursor://, vscode://)"@
}

impl DcrError {
    /// An `invalid_redirect_uri` error with this description.
    pub fn invalid_redirect_uri(description: &str) -> (e: Self)
        ensures
            e.error@ == "invalid_redirect_uri"@,
            e.error_description matches Some(d) && d@ == description@,
    {
        DcrError { error: owned("invalid_redirect_uri"), error_description: Some(owned(description)) }
    }

    /// An `invalid_client_metadata` error with this description.
    pub fn invalid_client_metadata(description: &str) -> (e: Self)
        ensures
            e.error@ == "invalid_client_metadata"@,
            e.error_description matches Some(d) && d@ == description@,
    {
        DcrError {
            error: owned("invalid_client_metadata"),
            error_description: Some(owned(description)),
        }
    }
}

/// The parsed parts of a loopback redirect URI (127.0.0.1, localhost,
/// [::1] over http), or `None` when the URI is not one.
fn loopback_parts(uri: &str) -> (r: Option<UrlParts>)
    ensures
        r is Some <==> is_loopback(uri@),
        r matches Some(p) ==> url_components(uri@) == Some(p.parts()),
{
    match parse_url(uri) {
        Some(p) => {
            let host_ok = match &p.host {
                Some(h) => str_eq(h.as_str(), "127.0.0.1") || str_eq(h.as_str(), "localhost") || str_eq(
                    h.as_str(),
                    "[::1]",
                ),
                None => false,
            };
            if str_eq(p.scheme.as_str(), "http") && host_ok {
                Some(p)
            } else {
                None
            }
        },
        None => None,
    }
}

/// Validates redirect URIs per RFC 8252: at least one, and each a loopback
/// address or a custom URL scheme.
pub fn validate_redirect_uris(uris: &[String]) -> (r: Result<(), DcrError>)
    ensures
        r is Ok <==> uris@.len() > 0 && forall|i: int|
            0 <= i < uris@.len() ==> redirect_uri_allowed(#[trigger] uris@[i]@),
        r matches Err(e) ==> e.error@ == "invalid_redirect_uri"@ && e.error_description is Some,
        r matches Err(e) ==> (uris@.len() == 0 ==> e.error_description->0@ == empty_uris_message()),
        r matches Err(e) ==> (uris@.len() > 0 ==> e.error_description->0@ == bad_uri_message()),
{
    if uris.len() == 0 {
        return Err(DcrError::invalid_redirect_uri("At least one redirect_uri is required"));
    }
    let mut i: usize = 0;
    while i < uris.len()
        invariant
            i <= uris@.len(),
            forall|j: int| 0 <= j < i ==> redirect_uri_allowed(#[trigger] uris@[j]@),
        decreases uris@.len() - i,
    {
        let uri = uris[i].as_str();
        let loopback = loopback_parts(uri).is_some();
        let custom = !str_starts_with(uri, "http://") && !str_starts_with(uri, "https://");
        if !loopback && !custom {
            return Err(
                DcrError::invalid_redirect_uri(
                    "Redirect URI must be loopback (http://127.0.0.1 or http://localhost) or a custom URL scheme (e.g., cursor://, vscode://)",
                ),
            );
        }
        i = i + 1;
    }
    Ok(())
}

/// Whether the parts of two parsed URLs agree on scheme, host and path.
pub fn url_parts_match(a: &UrlParts, b: &UrlParts) -> (r: bool)
    ensures
        r == (a.parts() == b.parts()),
{
    let scheme = chars_equal(&chars_of(a.scheme.as_str()), &chars_of(b.scheme.as_str()));
    let host = match (&a.host, &b.host) {
        (Some(x), Some(y)) => chars_equal(&chars_of(x.as_str()), &chars_of(y.as_str())),
        (None, None) => true,
        _ => false,
    };
    let path = chars_equal(&chars_of(a.path.as_str()), &chars_of(b.path.as_str()));
    scheme && host && path
}

/// RFC 8252 §7.3 matching of a requested redirect URI against a registered
/// one: for loopback URIs the port is ignored (scheme, host and path as the
/// `url` crate parses them must agree); otherwise the strings must be equal.
pub open spec fn registered_uri_matches(reg: Seq<char>, req: Seq<char>) -> bool {
    reg == req || (is_loopback(req) && is_loopback(reg) && url_components(reg) == url_components(req))
}

/// Whether `requested` matches one of the `registered` redirect URIs
/// (RFC 8252 §7.3: loopback URIs match whatever their port).
pub fn redirect_uri_matches(registered: &[String], requested: &str) -> (r: bool)
    ensures
        r == exists|i: int|
            0 <= i < registered@.len() && registered_uri_matches(#[trigger] registered@[i]@, requested@),
{
    let req_chars = chars_of(requested);
    let mut i: usize = 0;
    while i < registered.len()
        invariant
            i <= registered@.len(),
            req_chars@ == requested@,
            forall|j: int| 0 <= j < i ==> registered@[j]@ != requested@,
        decreases registered@.len() - i,
    {
        if chars_equal(&chars_of(registered[i].as_str()), &req_chars) {
            assert(registered_uri_matches(registered@[i as int]@, requested@));
            return true;
        }
        i = i + 1;
    }
    let req = match loopback_parts(requested) {
        Some(p) => p,
        None => {
            return false;
        },
    };
    let mut k: usize = 0;
    while k < registered.len()
        invariant
            k <= registered@.len(),
            is_loopback(requested@),
            url_components(requested@) == Some(req.parts()),
            forall|j: int| 0 <= j < registered@.len() ==> registered@[j]@ != requested@,
            forall|j: int| 0 <= j < k ==> !registered_uri_matches(#[trigger] registered@[j]@, requested@),
        decreases registered@.len() - k,
    {
        let reg = registered[k].as_str();
        match loopback_parts(reg) {
            Some(p) => {
                if url_parts_match(&p, &req) {
                    assert(registered_uri_matches(registered@[k as int]@, requested@));
                    return true;
                }
            },
            None => {},
        }
        k = k + 1;
    }
    false
}

/// `uris` with each URI of `requested` appended, in order, unless it is
/// already there: a client that registers again keeps its earlier URIs.
pub open spec fn merge_uris(uris: Seq<Seq<char>>, requested: Seq<Seq<char>>) -> Seq<Seq<char>>
    decreases requested.len(),
{
    if requested.len() == 0 {
        uris
    } else {
        let m = merge_uris(uris, requested.drop_last());
        if m.contains(requested.last()) {
            m
        } else {
            m.push(requested.last())
        }
    }
}

/// Grant types used when a request names none.
pub open spec fn default_grant_types() -> Seq<Seq<char>> {
    seq!["authorization_code"@, "refresh_token"@]
}

/// Response types used when a request names none.
pub open spec fn default_response_types() -> Seq<Seq<char>> {
    seq!["code"@]
}

/// The grant types a request registers.
pub open spec fn requested_grant_types(r: DcrRequest) -> Seq<Seq<char>> {
    if r.grant_types@.len() == 0 {
        default_grant_types()
    } else {
        views(r.grant_types@)
    }
}

/// The response types a request registers.
pub open spec fn requested_response_types(r: DcrRequest) -> Seq<Seq<char>> {
    if r.response_types@.len() == 0 {
        default_response_types()
    } else {
        views(r.response_types@)
    }
}

/// The token endpoint authentication method a request registers ("none" by default).
pub open spec fn requested_auth_method(r: DcrRequest) -> Seq<char> {
    match r.token_endpoint_auth_method {
        Some(m) => m@,
        None => "none"@,
    }
}

/// The redirect URIs accepted by RFC 8252 validation.
pub open spec fn redirect_uris_valid(uris: Seq<String>) -> bool {
    uris.len() > 0 && forall|i: int| 0 <= i < uris.len() ==> redirect_uri_allowed(#[trigger] uris[i]@)
}

/// `existing` with every URI of `requested` that it lacks appended, in order.
pub fn merge_redirect_uris(existing: Vec<String>, requested: &[String]) -> (r: Vec<String>)
    ensures
        views(r@) == merge_uris(views(existing@), views(requested@)),
{
    let ghost old_uris = views(existing@);
    let mut merged = existing;
    let mut i: usize = 0;
    while i < requested.len()
        invariant
            i <= requested@.len(),
            views(merged@) == merge_uris(old_uris, views(requested@.take(i as int))),
        decreases requested@.len() - i,
    {
        let ghost before = merged@;
        let uri = &requested[i];
        proof {
            assert(views(requested@.take(i + 1)).drop_last() == views(requested@.take(i as int)));
            assert(views(requested@.take(i + 1)).last() == uri@);
        }
        if !contains_str(&merged, uri.as_str()) {
            merged.push(uri.clone());
            assert(views(merged@) == views(before).push(uri@));
        }
        i = i + 1;
    }
    assert(requested@.take(requested@.len() as int) == requested@);
    merged
}

/// Every URI registered before stays registered, in its place.
pub proof fn law_merge_keeps_registered(uris: Seq<Seq<char>>, requested: Seq<Seq<char>>)
    ensures
        merge_uris(uris, requested).len() >= uris.len(),
        forall|i: int| 0 <= i < uris.len() ==> #[trigger] merge_uris(uris, requested)[i] == uris[i],
    decreases requested.len(),
{
    if requested.len() > 0 {
        law_merge_keeps_registered(uris, requested.drop_last());
    }
}

/// Every requested URI is registered afterwards.
pub proof fn law_merge_has_requested(uris: Seq<Seq<char>>, requested: Seq<Seq<char>>)
    ensures
        forall|i: int| 0 <= i < requested.len() ==> merge_uris(uris, requested).contains(#[trigger] requested[i]),
    decreases requested.len(),
{
    if requested.len() > 0 {
        let m = merge_uris(uris, requested.drop_last());
        law_merge_has_requested(uris, requested.drop_last());
        assert forall|i: int| 0 <= i < requested.len() implies merge_uris(uris, requested).contains(
            #[trigger] requested[i],
        ) by {
            if i < requested.len() - 1 {
                assert(requested.drop_last()[i] == requested[i]);
                assert(m.contains(requested[i]));
                let k = choose|k: int| 0 <= k < m.len() && m[k] == requested[i];
                if !m.contains(requested.last()) {
                    assert(m.push(requested.last())[k] == requested[i]);
                }
            } else {
                if !m.contains(requested.last()) {
                    assert(m.push(requested.last())[m.len() as int] == requested.last());
                }
            }
        }
    }
}

/// Nothing is registered that was neither registered before nor requested.
pub proof fn law_merge_adds_only_requested(uris: Seq<Seq<char>>, requested: Seq<Seq<char>>)
    ensures
        forall|x: Seq<char>| merge_uris(uris, requested).contains(x) ==> uris.contains(x) || requested.contains(x),
    decreases requested.len(),
{
    if requested.len() > 0 {
        let m = merge_uris(uris, requested.drop_last());
        law_merge_adds_only_requested(uris, requested.drop_last());
        assert forall|x: Seq<char>| merge_uris(uris, requested).contains(x) implies uris.contains(x)
            || requested.contains(x) by {
            let k = choose|k: int| 0 <= k < merge_uris(uris, requested).len() && merge_uris(uris, requested)[k] == x;
            if k < m.len() {
                assert(m[k] == x);
                if requested.drop_last().contains(x) {
                    let j = choose|j: int| 0 <= j < requested.drop_last().len() && requested.drop_last()[j] == x;
                    assert(requested[j] == x);
                }
            } else {
                assert(requested[requested.len() - 1] == x);
            }
        }
    }
}

/// Merging into a list that already holds every requested URI changes nothing.
proof fn lemma_merge_present(uris: Seq<Seq<char>>, requested: Seq<Seq<char>>)
    requires
        forall|i: int| 0 <= i < requested.len() ==> uris.contains(#[trigger] requested[i]),
    ensures
        merge_uris(uris, requested) == uris,
    decreases requested.len(),
{
    if requested.len() > 0 {
        assert forall|i: int| 0 <= i < requested.drop_last().len() implies uris.contains(
            #[trigger] requested.drop_last()[i],
        ) by {
            assert(requested.drop_last()[i] == requested[i]);
        }
        lemma_merge_present(uris, requested.drop_last());
        assert(uris.contains(requested[requested.len() - 1]));
    }
}

/// Registering the same redirect URIs again leaves the list as it was:
/// the merge is idempotent.
pub proof fn law_merge_idempotent(uris: Seq<Seq<char>>, requested: Seq<Seq<char>>)
    ensures
        merge_uris(merge_uris(uris, requested), requested) == merge_uris(uris, requested),
{
    law_merge_has_requested(uris, requested);
    lemma_merge_present(merge_uris(uris, requested), requested);
}

/// Builds the stored client for a DCR request: the request's name, scope and
/// metadata with the given registration values; not approved until the user
/// consents, and without CIMD metadata.
pub fn build_inbound_client_from_request(
    request: &DcrRequest,
    client_id: String,
    redirect_uris: Vec<String>,
    grant_types: Vec<String>,
    response_types: Vec<String>,
    token_endpoint_auth_method: String,
    client_alias: Option<String>,
    connection_mode: String,
    locked_space_id: Option<String>,
    last_seen: Option<String>,
    created_at: String,
    updated_at: String,
) -> (c: InboundClient)
    ensures
        c == (InboundClient {
            client_id,
            registration_type: RegistrationType::Dcr,
            client_name: request.client_name,
            client_alias,
            redirect_uris,
            grant_types,
            response_types,
            token_endpoint_auth_method,
            scope: request.scope,
            approved: false,
            logo_uri: request.logo_uri,
            client_uri: request.client_uri,
            software_id: request.software_id,
            software_version: request.software_version,
            metadata_url: None,
            metadata_cached_at: None,
            metadata_cache_ttl: None,
            connection_mode,
            locked_space_id,
            last_seen,
            created_at,
            updated_at,
        }),
{
    InboundClient {
        client_id,
        registration_type: RegistrationType::Dcr,
        client_name: request.client_name.clone(),
        client_alias,
        redirect_uris,
        grant_types,
        response_types,
        token_endpoint_auth_method,
        scope: copy_opt(&request.scope),
        approved: false,
        logo_uri: copy_opt(&request.logo_uri),
        client_uri: copy_opt(&request.client_uri),
        software_id: copy_opt(&request.software_id),
        software_version: copy_opt(&request.software_version),
        metadata_url: None,
        metadata_cached_at: None,
        metadata_cache_ttl: None,
        connection_mode,
        locked_space_id,
        last_seen,
        created_at,
        updated_at,
    }
}

/// The grant types, response types and authentication method of a request,
/// defaults filled in.
fn requested_types(request: &DcrRequest) -> (r: (Vec<String>, Vec<String>, String))
    ensures
        views(r.0@) == requested_grant_types(*request),
        views(r.1@) == requested_response_types(*request),
        r.2@ == requested_auth_method(*request),
{
    let grant_types = if request.grant_types.len() == 0 {
        let v = vec![owned("authorization_code"), owned("refresh_token")];
        assert(views(v@) == default_grant_types());
        v
    } else {
        let v = copy_strings(&request.grant_types);
        v
    };
    let response_types = if request.response_types.len() == 0 {
        let v = vec![owned("code")];
        assert(views(v@) == default_response_types());
        v
    } else {
        copy_strings(&request.response_types)
    };
    let method = match &request.token_endpoint_auth_method {
        Some(m) => m.clone(),
        None => owned("none"),
    };
    (grant_types, response_types, method)
}

/// What is stored for a valid request: an update of the client registered
/// under the same name (same ID, URIs merged, the user's alias, connection
/// mode, locked space, last-seen and creation time kept), or a new client
/// with the given ID that follows the active space.
pub open spec fn registered_as(
    c: InboundClient,
    request: DcrRequest,
    existing: Option<InboundClient>,
    new_client_id: Seq<char>,
    now: Seq<char>,
) -> bool {
    &&& c.registration_type == RegistrationType::Dcr
    &&& c.client_name == request.client_name
    &&& views(c.grant_types@) == requested_grant_types(request)
    &&& views(c.response_types@) == requested_response_types(request)
    &&& c.token_endpoint_auth_method@ == requested_auth_method(request)
    &&& c.scope == request.scope
    &&& !c.approved
    &&& c.logo_uri == request.logo_uri
    &&& c.client_uri == request.client_uri
    &&& c.software_id == request.software_id
    &&& c.software_version == request.software_version
    &&& c.metadata_url is None && c.metadata_cached_at is None && c.metadata_cache_ttl is None
    &&& c.updated_at@ == now
    &&& match existing {
        Some(e) => {
            &&& c.client_id == e.client_id
            &&& views(c.redirect_uris@) == merge_uris(views(e.redirect_uris@), views(request.redirect_uris@))
            &&& c.client_alias == e.client_alias
            &&& c.connection_mode == e.connection_mode
            &&& c.locked_space_id == e.locked_space_id
            &&& c.last_seen == e.last_seen
            &&& c.created_at == e.created_at
        },
        None => {
            &&& c.client_id@ == new_client_id
            &&& c.redirect_uris@ == request.redirect_uris@
            &&& c.client_alias is None
            &&& c.connection_mode@ == "follow_active"@
            &&& c.locked_space_id is None
            &&& c.last_seen matches Some(t) && t@ == now
            &&& c.created_at@ == now
        },
    }
}

/// The response to a registration: the stored client's ID, URIs and types,
/// the request's metadata, issued at `now_unix`.
pub open spec fn responded_as(r: DcrResponse, c: InboundClient, request: DcrRequest, now_unix: u64) -> bool {
    &&& r.client_id == c.client_id
    &&& r.client_name == request.client_name
    &&& r.redirect_uris@ == c.redirect_uris@
    &&& r.grant_types@ == c.grant_types@
    &&& r.response_types@ == c.response_types@
    &&& r.token_endpoint_auth_method == c.token_endpoint_auth_method
    &&& r.client_id_issued_at == now_unix
    &&& r.scope == request.scope
    &&& r.logo_uri == request.logo_uri
    &&& r.client_uri == request.client_uri
    &&& r.tos_uri == request.tos_uri
    &&& r.policy_uri == request.policy_uri
    &&& r.contacts == request.contacts
    &&& r.software_id == request.software_id
    &&& r.software_version == request.software_version
}

/// Decides a DCR registration once the client registered under the request's
/// name, if any, has been looked up: validates the redirect URIs, then gives
/// the client to store and the response to send.
pub fn plan_dcr_registration(
    request: DcrRequest,
    existing: Option<InboundClient>,
    new_client_id: String,
    now: String,
    now_unix: u64,
) -> (r: Result<(InboundClient, DcrResponse), DcrError>)
    ensures
        r is Ok <==> redirect_uris_valid(request.redirect_uris@),
        r matches Err(e) ==> e.error@ == "invalid_redirect_uri"@ && e.error_description is Some,
        r matches Err(e) ==> (request.redirect_uris@.len() == 0 ==> e.error_description->0@
            == empty_uris_message()),
        r matches Err(e) ==> (request.redirect_uris@.len() > 0 ==> e.error_description->0@
            == bad_uri_message()),
        r matches Ok((c, resp)) ==> registered_as(c, request, existing, new_client_id@, now@)
            && responded_as(resp, c, request, now_unix),
{
    match validate_redirect_uris(request.redirect_uris.as_slice()) {
        Err(e) => {
            return Err(e);
        },
        Ok(()) => {},
    }
    let (grant_types, response_types, method) = requested_types(&request);
    let client = match existing {
        Some(e) => {
            let merged = merge_redirect_uris(e.redirect_uris, request.redirect_uris.as_slice());
            build_inbound_client_from_request(
                &request,
                e.client_id,
                merged,
                copy_strings(&grant_types),
                copy_strings(&response_types),
                method.clone(),
                e.client_alias,
                e.connection_mode,
                e.locked_space_id,
                e.last_seen,
                e.created_at,
                now,
            )
        },
        None => {
            build_inbound_client_from_request(
                &request,
                new_client_id,
                copy_strings(&request.redirect_uris),
                copy_strings(&grant_types),
                copy_strings(&response_types),
                method.clone(),
                None,
                owned("follow_active"),
                None,
                Some(now.clone()),
                now.clone(),
                now,
            )
        },
    };
    let response = DcrResponse {
        client_id: client.client_id.clone(),
        client_name: request.client_name,
        redirect_uris: copy_strings(&client.redirect_uris),
        grant_types,
        response_types,
        token_endpoint_auth_method: method,
        client_id_issued_at: now_unix,
        scope: request.scope,
        logo_uri: request.logo_uri,
        client_uri: request.client_uri,
        tos_uri: request.tos_uri,
        policy_uri: request.policy_uri,
        contacts: request.contacts,
        software_id: request.software_id,
        software_version: request.software_version,
    };
    Ok((client, response))
}

/// A fresh client ID: "mcp_" and the first 8 characters of a random UUID's
/// hyphenated form (8 lowercase hexadecimal digits).
pub fn new_dcr_client_id() -> (id: String)
    ensures
        exists|u: u128| id@ == "mcp_"@ + #[trigger] uuid_hyphenated(u).subrange(0, 8),
        id@.len() == 12,
        is_prefix("mcp_"@, id@),
        forall|i: int| 4 <= i < 12 ==> is_hex_lower(#[trigger] id@[i]),
{
    let u = new_uuid_u128();
    let t = chars_of(uuid_string(u).as_str());
    let mut id = owned("mcp_");
    proof {
        reveal_strlit("mcp_");
        lemma_hex_lower(u as nat, 32);
        assert(t@.len() == 36);
        assert(t@.subrange(0, 8) == hex_lower(u as nat, 32).subrange(0, 8));
    }
    let mut i: usize = 0;
    while i < 8
        invariant
            t@ == uuid_hyphenated(u),
            t@.len() == 36,
            i <= 8,
            id@ == "mcp_"@ + t@.subrange(0, i as int),
        decreases 8 - i,
    {
        push_char(&mut id, t[i]);
        assert(t@.subrange(0, i + 1) == t@.subrange(0, i as int).push(t@[i as int]));
        i = i + 1;
    }
    proof {
        assert(id@ == "mcp_"@ + uuid_hyphenated(u).subrange(0, 8));
        assert(id@.subrange(0, 4) =~= "mcp_"@);
        assert forall|i: int| 4 <= i < 12 implies is_hex_lower(#[trigger] id@[i]) by {
            assert(id@[i] == hex_lower(u as nat, 32)[i - 4]);
        }
    }
    id
}

/// The error for a failed lookup of the client registered under a name.
pub fn lookup_failed(e: &str) -> (r: DcrError)
    ensures
        r.error@ == "invalid_client_metadata"@,
        r.error_description matches Some(d) && d@ == "Database error: "@ + e@,
{
    let mut m = owned("Database error: ");
    m.append(e);
    DcrError::invalid_client_metadata(m.as_str())
}

/// The error for a registration that could not be stored.
pub fn save_failed(e: &str) -> (r: DcrError)
    ensures
        r.error@ == "invalid_client_metadata"@,
        r.error_description matches Some(d) && d@ == "Failed to save client: "@ + e@,
{
    let mut m = owned("Failed to save client: ");
    m.append(e);
    DcrError::invalid_client_metadata(m.as_str())
}

/// What a registration gives once the lookup by name came back: the lookup's
/// error as a "Database error", or the planned client and response (a new
/// client's ID is "mcp_" and the start of a UUID's hyphenated form).
pub open spec fn registered_after_lookup(
    r: Result<(InboundClient, DcrResponse), DcrError>,
    request: DcrRequest,
    found: Result<Option<InboundClient>, String>,
) -> bool {
    match found {
        Err(m) => match r {
            Err(e) => e.error@ == "invalid_client_metadata"@ && match e.error_description {
                Some(d) => d@ == "Database error: "@ + m@,
                None => false,
            },
            Ok(_) => false,
        },
        Ok(existing) => match r {
            Ok((c, resp)) => registered_as(c, request, existing, c.client_id@, c.updated_at@) && responded_as(
                resp,
                c,
                request,
                resp.client_id_issued_at,
            ) && (existing is None ==> exists|u: u128| c.client_id@ == "mcp_"@ + #[trigger] uuid_hyphenated(u).subrange(0, 8)),
            Err(_) => false,
        },
    }
}

/// The refusal of a request whose redirect URIs are invalid: the error that
/// `validate_redirect_uris` gives, for an empty list or for a bad URI.
pub open spec fn refused_uris(r: Result<(InboundClient, DcrResponse), DcrError>, uris: Seq<String>) -> bool {
    match r {
        Err(e) => e.error@ == "invalid_redirect_uri"@ && match e.error_description {
            Some(d) => d@ == if uris.len() == 0 {
                empty_uris_message()
            } else {
                bad_uri_message()
            },
            None => false,
        },
        Ok(_) => false,
    }
}

/// Registers a client: validates the redirect URIs first, and only then
/// looks up the client stored under the request's name with
/// `find_client_by_name` (a failed lookup is a "Database error"). A new
/// client gets a fresh ID; the registration is stamped with the current
/// time. Storing the client is left to the caller.
pub fn register_dcr_client<F>(request: DcrRequest, find_client_by_name: F) -> (r: Result<
    (InboundClient, DcrResponse),
    DcrError,
>) where F: FnOnce(String) -> Result<Option<InboundClient>, String>
    requires
        forall|n: String| find_client_by_name.requires((n,)),
    ensures
        !redirect_uris_valid(request.redirect_uris@) ==> refused_uris(r, request.redirect_uris@),
        redirect_uris_valid(request.redirect_uris@) ==> exists|found: Result<Option<InboundClient>, String>|
            #[trigger] find_client_by_name.ensures((request.client_name,), found) && registered_after_lookup(
                r,
                request,
                found,
            ),
{
    match validate_redirect_uris(request.redirect_uris.as_slice()) {
        Err(e) => {
            return Err(e);
        },
        Ok(()) => {},
    }
    let name = request.client_name.clone();
    let found = find_client_by_name(name);
    let existing = match found {
        Err(m) => {
            return Err(lookup_failed(m.as_str()));
        },
        Ok(existing) => existing,
    };
    let is_new = existing.is_none();
    let client_id = if is_new {
        new_dcr_client_id()
    } else {
        String::new()
    };
    let now = now_utc_timestamp();
    let now_unix = now_epoch_secs();
    plan_dcr_registration(request, existing, client_id, now, now_unix)
}

/// A requested redirect URI that is registered verbatim always matches.
pub proof fn law_registered_uri_matches(registered: Seq<Seq<char>>, requested: Seq<char>)
    requires
        registered.contains(requested),
    ensures
        exists|i: int| 0 <= i < registered.len() && registered_uri_matches(#[trigger] registered[i], requested),
{
    let i = choose|i: int| 0 <= i < registered.len() && registered[i] == requested;
    assert(registered_uri_matches(registered[i], requested));
}

/// Two loopback redirect URIs that parse to the same scheme, host and path
/// match, whatever else (the port) tells them apart.
pub proof fn law_loopback_matches_without_port(reg: Seq<char>, requested: Seq<char>)
    requires
        is_loopback(reg),
        is_loopback(requested),
        url_components(reg) == url_components(requested),
    ensures
        registered_uri_matches(reg, requested),
{
}

/// A redirect URI that is not loopback matches only a registered URI equal
/// to it: ports are ignored for loopback URIs alone.
pub proof fn law_non_loopback_matches_exactly(reg: Seq<char>, requested: Seq<char>)
    requires
        !is_loopback(requested),
    ensures
        registered_uri_matches(reg, requested) <==> reg == requested,
{
}

} // verus!
