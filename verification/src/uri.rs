//! URL parsing through the `url` crate.

use vstd::prelude::*;

verus! {

/// What `url::Url::parse` makes of `s`, if it parses: the scheme, the host as
/// `host_str` renders it (absent for URLs without a host) and the path.
pub uninterp spec fn url_components(s: Seq<char>) -> Option<(Seq<char>, Option<Seq<char>>, Seq<char>)>;

/// The query of `s` after `url::Url::parse`, decoded into key/value pairs in
/// order by `query_pairs`; `None` when `s` does not parse.
pub uninterp spec fn url_query_pairs(s: Seq<char>) -> Option<Seq<(Seq<char>, Seq<char>)>>;

/// The serialisation of `s` after `url::Url::parse` and appending the query
/// pair `key=value` with `query_pairs_mut().append_pair`; `None` when `s` does
/// not parse.
pub uninterp spec fn url_with_query_pair(s: Seq<char>, key: Seq<char>, value: Seq<char>) -> Option<Seq<char>>;

/// The parts of a parsed URL that redirect matching compares.
#[derive(Debug, Clone)]
pub struct UrlParts {
    /// Scheme, e.g. "http"
    pub scheme: String,
    /// Host as text, if the URL has one
    pub host: Option<String>,
    /// Path, e.g. "/callback"
    pub path: String,
}

/// The view of an optional string.
pub open spec fn opt_view(s: Option<String>) -> Option<Seq<char>> {
    match s {
        Some(v) => Some(v@),
        None => None,
    }
}

impl UrlParts {
    /// The parts as plain values.
    pub open spec fn parts(&self) -> (Seq<char>, Option<Seq<char>>, Seq<char>) {
        (self.scheme@, opt_view(self.host), self.path@)
    }
}

/// `url::Url::parse(s)`, keeping its scheme, `host_str` and path.
#[verifier::external_body]
pub(crate) fn parse_url(s: &str) -> (r: Option<UrlParts>)
    ensures
        match r {
            Some(p) => url_components(s@) == Some(p.parts()),
            None => url_components(s@) is None,
        },
{
    match url::Url::parse(s) {
        Ok(u) => Some(
            UrlParts {
                scheme: u.scheme().to_string(),
                host: u.host_str().map(|h| h.to_string()),
                path: u.path().to_string(),
            },
        ),
        Err(_) => None,
    }
}

/// `url::Url::parse(s)` followed by `query_pairs`, each pair owned.
#[verifier::external_body]
pub(crate) fn parse_query_pairs(s: &str) -> (r: Option<Vec<(String, String)>>)
    ensures
        match r {
            Some(v) => url_query_pairs(s@) == Some(
                v@.map_values(|p: (String, String)| (p.0@, p.1@)),
            ),
            None => url_query_pairs(s@) is None,
        },
{
    match url::Url::parse(s) {
        Ok(u) => Some(u.query_pairs().map(|(k, v)| (k.to_string(), v.to_string())).collect()),
        Err(_) => None,
    }
}

/// `url::Url::parse(s)`, then `query_pairs_mut().append_pair(key, value)`,
/// then `to_string`. The serialized URL parses again, and its query pairs
/// hold the appended pair (form-urlencoding decodes what it encoded).
#[verifier::external_body]
pub(crate) fn append_query_pair(s: &str, key: &str, value: &str) -> (r: Option<String>)
    ensures
        match r {
            Some(v) => url_with_query_pair(s@, key@, value@) == Some(v@),
            None => url_with_query_pair(s@, key@, value@) is None,
        },
        r matches Some(v) ==> (url_query_pairs(v@) matches Some(ps) && ps.contains((key@, value@))),
{
    match url::Url::parse(s) {
        Ok(mut u) => {
            u.query_pairs_mut().append_pair(key, value);
            Some(u.to_string())
        },
        Err(_) => None,
    }
}

} // verus!
