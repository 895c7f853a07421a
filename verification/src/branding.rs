//! Product naming: the branding constants and the names, URLs and URIs made
//! from them.

use vstd::prelude::*;

use crate::text::{
    decimal, digit_char, has_substring, is_prefix, owned, push_char, str_contains,
    str_starts_with, trim_leading,
};
use crate::feature::join2;

verus! {

/// User-facing display name
pub const DISPLAY_NAME: &'static str = "McpMux";

/// Reverse-domain app identifier
pub const IDENTIFIER: &'static str = "com.mcpmux.app";

/// Custom URL scheme for deep links
pub const DEEP_LINK_SCHEME: &'static str = "mcpmux";

/// Primary domain
pub const DOMAIN: &'static str = "mcpmux.com";

/// API subdomain
pub const API_DOMAIN: &'static str = "api.mcpmux.com";

/// Keychain/credential manager service name
pub const KEYCHAIN_SERVICE: &'static str = "com.mcpmux.desktop";

/// Log file prefix
pub const LOG_PREFIX: &'static str = "mcpmux";

/// MCP server config key (for clients such as VS Code)
pub const MCP_CONFIG_KEY: &'static str = "mcpmux";

/// GitHub organization
pub const GITHUB_ORG: &'static str = "mcpmux";

/// NPM scope
pub const NPM_SCOPE: &'static str = "@mcpmux";

/// OAuth DCR logo URI (RFC 7591); empty when not configured
pub const OAUTH_LOGO_URI: &'static str = "";

/// OAuth DCR client URI (RFC 7591); empty when not configured
pub const OAUTH_CLIENT_URI: &'static str = "";

/// OAuth DCR terms of service URI (RFC 7591); empty when not configured
pub const OAUTH_TOS_URI: &'static str = "";

/// OAuth DCR privacy policy URI (RFC 7591); empty when not configured
pub const OAUTH_POLICY_URI: &'static str = "";

/// Registry API base URL; empty means the built-in default
pub const REGISTRY_URL: &'static str = "";

/// Whether the Software Updates section is shown in Settings
pub const SOFTWARE_UPDATES_ENABLED: bool = true;

/// Default preferred port for OAuth callbacks (adjacent to the gateway port)
pub const DEFAULT_OAUTH_CALLBACK_PORT: u16 = 45819;

/// Default port of the local gateway
pub const DEFAULT_GATEWAY_PORT: u16 = 45818;

/// The deep link prefix, scheme and "://".
pub open spec fn deep_link_prefix_spec() -> Seq<char> {
    DEEP_LINK_SCHEME@ + "://"@
}

/// The loopback callback path.
pub open spec fn callback_path() -> Seq<char> {
    "/oauth2redirect"@
}

/// The deep link URL prefix (e.g. "mcpmux://").
pub fn deep_link_prefix() -> (r: String)
    ensures
        r@ == deep_link_prefix_spec(),
{
    join2(DEEP_LINK_SCHEME, "://")
}

/// Whether a URL is a deep link for this app.
pub fn is_deep_link(url: &str) -> (b: bool)
    ensures
        b == is_prefix(deep_link_prefix_spec(), url@),
{
    let prefix = deep_link_prefix();
    str_starts_with(url, prefix.as_str())
}

/// The full API URL for a path: "https://", the API domain, "/" and the path
/// without its leading slashes.
pub fn api_url(path: &str) -> (r: String)
    ensures
        r@ == "https://"@ + API_DOMAIN@ + "/"@ + trim_leading(path@, '/'),
{
    let mut r = join2("https://", API_DOMAIN);
    push_char(&mut r, '/');
    let ghost base = r@;
    let mut i: usize = 0;
    let n = path.unicode_len();
    assert(path@.subrange(0, n as int) == path@);
    while i < n && path.get_char(i) == '/'
        invariant
            n == path@.len(),
            i <= n,
            r@ == base,
            trim_leading(path@, '/') == trim_leading(path@.subrange(i as int, n as int), '/'),
        decreases n - i,
    {
        proof {
            let t = path@.subrange(i as int, n as int);
            assert(t.drop_first() == path@.subrange(i + 1, n as int));
        }
        i = i + 1;
    }
    let start = i;
    proof {
        assert(trim_leading(path@.subrange(start as int, n as int), '/') == path@.subrange(
            start as int,
            n as int,
        ));
    }
    while i < n
        invariant
            n == path@.len(),
            start <= i <= n,
            r@ == base + path@.subrange(start as int, i as int),
        decreases n - i,
    {
        push_char(&mut r, path.get_char(i));
        assert(path@.subrange(start as int, i + 1) == path@.subrange(start as int, i as int).push(
            path@[i as int],
        ));
        i = i + 1;
    }
    proof {
        reveal_strlit("/");
    }
    assert(base == "https://"@ + API_DOMAIN@ + "/"@);
    r
}

/// The schema URL for a schema name: "https://", the domain, "/schemas/"
/// and the name.
pub fn schema_url(schema_name: &str) -> (r: String)
    ensures
        r@ == "https://"@ + DOMAIN@ + "/schemas/"@ + schema_name@,
{
    let mut r = join2("https://", DOMAIN);
    r.append("/schemas/");
    r.append(schema_name);
    r
}

/// The window title: display name, " — " and the suffix.
pub fn window_title(suffix: &str) -> (r: String)
    ensures
        r@ == DISPLAY_NAME@ + " — "@ + suffix@,
{
    let mut r = join2(DISPLAY_NAME, " — ");
    r.append(suffix);
    r
}

/// The path of the loopback OAuth callback (RFC 8252 §7.3).
pub fn oauth_callback_path() -> (r: &'static str)
    ensures
        r@ == callback_path(),
{
    "/oauth2redirect"
}

/// The OAuth client name for outbound DCR registration.
pub fn outbound_oauth_client_name() -> (r: &'static str)
    ensures
        r@ == DISPLAY_NAME@,
{
    DISPLAY_NAME
}

/// The OAuth client name for DCR: "McpMux (Space)" for a non-empty space
/// name, else the display name.
pub fn outbound_oauth_client_name_for_space(space_name: Option<&str>) -> (r: String)
    ensures
        r@ == match space_name {
            Some(n) => if n@.len() > 0 {
                DISPLAY_NAME@ + " ("@ + n@ + ")"@
            } else {
                DISPLAY_NAME@
            },
            None => DISPLAY_NAME@,
        },
{
    match space_name {
        Some(name) => {
            if name.unicode_len() > 0 {
                let mut r = join2(DISPLAY_NAME, " (");
                r.append(name);
                r.append(")");
                r
            } else {
                owned(DISPLAY_NAME)
            }
        },
        None => owned(DISPLAY_NAME),
    }
}

/// The DCR branding fields as (field, value) pairs, in the order logo,
/// client, terms of service, privacy policy, each present only when its
/// value is not empty.
pub open spec fn dcr_metadata_fields() -> Seq<(Seq<char>, Seq<char>)> {
    let all = seq![
        ("logo_uri"@, OAUTH_LOGO_URI@),
        ("client_uri"@, OAUTH_CLIENT_URI@),
        ("tos_uri"@, OAUTH_TOS_URI@),
        ("policy_uri"@, OAUTH_POLICY_URI@),
    ];
    all.filter(|p: (Seq<char>, Seq<char>)| p.1.len() > 0)
}

/// OAuth DCR branding metadata (RFC 7591): the non-empty branding URIs.
pub fn outbound_dcr_metadata() -> (r: Vec<(&'static str, &'static str)>)
    ensures
        r@.map_values(|p: (&str, &str)| (p.0@, p.1@)) == dcr_metadata_fields(),
{
    proof {
        reveal_strlit("");
    }
    let mut fields: Vec<(&'static str, &'static str)> = Vec::new();
    if OAUTH_LOGO_URI.unicode_len() > 0 {
        fields.push(("logo_uri", OAUTH_LOGO_URI));
    }
    if OAUTH_CLIENT_URI.unicode_len() > 0 {
        fields.push(("client_uri", OAUTH_CLIENT_URI));
    }
    if OAUTH_TOS_URI.unicode_len() > 0 {
        fields.push(("tos_uri", OAUTH_TOS_URI));
    }
    if OAUTH_POLICY_URI.unicode_len() > 0 {
        fields.push(("policy_uri", OAUTH_POLICY_URI));
    }
    proof {
        let all = seq![
            ("logo_uri"@, OAUTH_LOGO_URI@),
            ("client_uri"@, OAUTH_CLIENT_URI@),
            ("tos_uri"@, OAUTH_TOS_URI@),
            ("policy_uri"@, OAUTH_POLICY_URI@),
        ];
        reveal_with_fuel(Seq::filter, 5);
        assert(all.filter(|p: (Seq<char>, Seq<char>)| p.1.len() > 0) =~= Seq::empty());
        assert(fields@.map_values(|p: (&str, &str)| (p.0@, p.1@)) =~= Seq::empty());
    }
    fields
}

/// The decimal digits of `n`.
pub fn decimal_string(n: u64) -> (r: String)
    ensures
        r@ == decimal(n as nat),
    decreases n,
{
    let d: u64 = n % 10;
    let c: char = ((d as u8) + 48) as char;
    assert(c == digit_char(d as nat));
    if n < 10 {
        let mut r = String::new();
        push_char(&mut r, c);
        r
    } else {
        let mut r = decimal_string(n / 10);
        push_char(&mut r, c);
        r
    }
}

/// The complete loopback callback URI for a port:
/// "http://127.0.0.1:", the port in decimal, "/oauth2redirect".
pub fn oauth_callback_uri_with_port(port: u16) -> (r: String)
    ensures
        r@ == "http://127.0.0.1:"@ + decimal(port as nat) + callback_path(),
{
    let mut r = owned("http://127.0.0.1:");
    let p = decimal_string(port as u64);
    r.append(p.as_str());
    r.append(oauth_callback_path());
    r
}

/// A loopback OAuth callback for this app: http on 127.0.0.1 or [::1] with a
/// port, and the callback path somewhere in the URL.
pub open spec fn is_oauth_callback_spec(url: Seq<char>) -> bool {
    (is_prefix("http://127.0.0.1:"@, url) || is_prefix("http://[::1]:"@, url)) && has_substring(
        url,
        callback_path(),
    )
}

/// Whether a URL is a loopback OAuth callback for this app.
pub fn is_oauth_callback(url: &str) -> (b: bool)
    ensures
        b == is_oauth_callback_spec(url@),
{
    let path = oauth_callback_path();
    if str_starts_with(url, "http://127.0.0.1:") && str_contains(url, path) {
        return true;
    }
    if str_starts_with(url, "http://[::1]:") && str_contains(url, path) {
        return true;
    }
    false
}

/// A leading slash makes no difference to an API URL.
pub proof fn law_api_url_ignores_leading_slash(path: Seq<char>)
    ensures
        trim_leading(seq!['/'] + path, '/') == trim_leading(path, '/'),
{
    assert((seq!['/'] + path).drop_first() == path);
}

/// A deep link made from the prefix is recognized as one.
pub proof fn law_deep_links_recognized(rest: Seq<char>)
    ensures
        is_prefix(deep_link_prefix_spec(), deep_link_prefix_spec() + rest),
{
    assert((deep_link_prefix_spec() + rest).subrange(0, deep_link_prefix_spec().len() as int)
        == deep_link_prefix_spec());
}

/// The callback URI built for any port is recognized as this app's
/// callback.
pub proof fn law_callback_uri_recognized(port: u16)
    ensures
        is_oauth_callback_spec("http://127.0.0.1:"@ + decimal(port as nat) + callback_path()),
{
    let p = "http://127.0.0.1:"@;
    let u = p + decimal(port as nat) + callback_path();
    assert(u.subrange(0, p.len() as int) == p);
    let start: int = (p.len() + decimal(port as nat).len()) as int;
    assert(u.subrange(start, start + callback_path().len()) == callback_path());
}

} // verus!
