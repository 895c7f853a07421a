//! The MCP server registry: server entries by ID with lookup, filtering and
//! search.

use vstd::prelude::*;

use crate::server::{InputDefinition, ServerIcon, TransportConfig};
use crate::text::{
    ascii_lower_seq, chars_equal, chars_of, has_substring, lower_char, owned, str_contains,
    str_eq, to_lowercase, unicode_lowercase,
};

verus! {

/// Registry schema version for compatibility
pub const REGISTRY_SCHEMA_VERSION: &'static str = "1.0";

/// The schema version used when none is given.
pub fn default_version() -> (r: String)
    ensures
        r@ == REGISTRY_SCHEMA_VERSION@,
{
    owned(REGISTRY_SCHEMA_VERSION)
}

/// A registry category, by name.
#[derive(Debug, Clone)]
pub struct ServerCategory(pub String);

/// A platform a server runs on, by name.
#[derive(Debug, Clone)]
pub struct Platform(pub String);

/// Who publishes a server.
#[derive(Debug, Clone)]
pub struct Publisher {
    /// Publisher name
    pub name: String,
    /// Publisher URL
    pub url: Option<String>,
    /// Whether the publisher is verified
    pub verified: bool,
    /// Whether the publisher is the service owner
    pub official: bool,
}

/// Quality and trust indicators of a registry entry.
#[derive(Debug, Clone, Copy, PartialEq, Eq, Structural)]
pub struct QualityIndicators {
    /// Verified entry
    pub verified: bool,
    /// Official entry
    pub official: bool,
    /// Featured entry
    pub featured: bool,
}

impl Default for QualityIndicators {
    fn default() -> (r: Self)
        ensures
            !r.verified && !r.official && !r.featured,
    {
        QualityIndicators { verified: false, official: false, featured: false }
    }
}

/// Links of a registry entry.
#[derive(Debug, Clone)]
pub struct ServerLinks {
    /// Source repository
    pub repository: Option<String>,
    /// Homepage
    pub homepage: Option<String>,
    /// Documentation
    pub documentation: Option<String>,
}

impl Default for ServerLinks {
    fn default() -> (r: Self)
        ensures
            r.repository is None && r.homepage is None && r.documentation is None,
    {
        ServerLinks { repository: None, homepage: None, documentation: None }
    }
}

/// Kind of authentication a registry entry asks for.
#[derive(Debug, Clone, Copy, PartialEq, Eq, Structural)]
pub enum AuthType {
    /// No authentication
    NoAuth,
    /// An API key
    ApiKey,
    /// An optional API key
    OptionalApiKey,
    /// OAuth 2.1
    Oauth,
}

/// Authentication of a registry entry.
#[derive(Debug, Clone)]
pub struct AuthConfig {
    /// Kind of authentication
    pub auth_type: AuthType,
    /// How to obtain credentials
    pub instructions: Option<String>,
}

/// Registry metadata.
#[derive(Debug, Clone)]
pub struct RegistryMetadata {
    /// Registry name
    pub name: Option<String>,
    /// Registry description
    pub description: Option<String>,
    /// Last updated timestamp (ISO 8601)
    pub updated_at: Option<String>,
    /// Registry maintainer
    pub maintainer: Option<String>,
    /// Registry URL
    pub url: Option<String>,
}

impl Default for RegistryMetadata {
    fn default() -> (r: Self)
        ensures
            r.name is None && r.description is None && r.updated_at is None && r.maintainer is None
                && r.url is None,
    {
        RegistryMetadata { name: None, description: None, updated_at: None, maintainer: None, url: None }
    }
}

/// A server definition in the registry.
#[derive(Debug, Clone)]
pub struct RegistryServer {
    /// Globally unique identifier in reverse-domain notation
    pub id: String,
    /// Display name
    pub name: String,
    /// Optional short alias for tool prefixing
    pub alias: Option<String>,
    /// Short description
    pub description: Option<String>,
    /// Long description (markdown)
    pub about: Option<String>,
    /// Icon
    pub icon: Option<ServerIcon>,
    /// Schema version of this definition
    pub schema_version: String,
    /// Server version (semver)
    pub version: Option<String>,
    /// Primary category
    pub category: Option<ServerCategory>,
    /// Additional categories
    pub categories: Vec<ServerCategory>,
    /// Tags for search and filtering
    pub tags: Vec<String>,
    /// Publisher
    pub publisher: Option<Publisher>,
    /// Quality and trust indicators
    pub quality: QualityIndicators,
    /// Related links
    pub links: ServerLinks,
    /// Platform compatibility
    pub platforms: Vec<Platform>,
    /// User inputs required for configuration
    pub inputs: Vec<InputDefinition>,
    /// Transport configuration
    pub transport: TransportConfig,
    /// Authentication
    pub auth: Option<AuthConfig>,
    /// Whether the entry is deprecated
    pub deprecated: bool,
    /// Deprecation message
    pub deprecation_message: Option<String>,
    /// Replacement server ID
    pub replaced_by: Option<String>,
}

/// The servers as borrowed values.
pub open spec fn derefs(v: Seq<&RegistryServer>) -> Seq<RegistryServer> {
    v.map_values(|s: &RegistryServer| *s)
}

/// The inputs as borrowed values.
pub open spec fn input_derefs(v: Seq<&InputDefinition>) -> Seq<InputDefinition> {
    v.map_values(|s: &InputDefinition| *s)
}

impl RegistryServer {
    /// Whether the server needs user configuration: it has inputs, or asks
    /// for authentication.
    pub fn requires_configuration(&self) -> (b: bool)
        ensures
            b == (self.inputs@.len() > 0 || (self.auth matches Some(a) && a.auth_type != AuthType::NoAuth)),
    {
        self.inputs.len() > 0 || match &self.auth {
            Some(a) => a.auth_type != AuthType::NoAuth,
            None => false,
        }
    }

    /// Whether the server authenticates with OAuth.
    pub fn requires_oauth(&self) -> (b: bool)
        ensures
            b == (self.auth matches Some(a) && a.auth_type == AuthType::Oauth),
    {
        match &self.auth {
            Some(a) => a.auth_type == AuthType::Oauth,
            None => false,
        }
    }

    /// The required inputs, in order.
    pub fn required_inputs(&self) -> (r: Vec<&InputDefinition>)
        ensures
            input_derefs(r@) == self.inputs@.filter(|i: InputDefinition| i.required),
    {
        let ghost pred = |i: InputDefinition| i.required;
        let mut r: Vec<&InputDefinition> = Vec::new();
        for k in 0..self.inputs.len()
            invariant
                pred == (|i: InputDefinition| i.required),
                input_derefs(r@) == self.inputs@.take(k as int).filter(pred),
        {
            proof {
                reveal_with_fuel(Seq::filter, 1);
                assert(self.inputs@.take(k + 1).drop_last() =~= self.inputs@.take(k as int));
            }
            if self.inputs[k].required {
                let ghost before = r@;
                r.push(&self.inputs[k]);
                assert(input_derefs(r@) =~= input_derefs(before).push(self.inputs@[k as int]));
            }
        }
        assert(self.inputs@.take(self.inputs.len() as int) =~= self.inputs@);
        r
    }

    /// The secret inputs, in order.
    pub fn secret_inputs(&self) -> (r: Vec<&InputDefinition>)
        ensures
            input_derefs(r@) == self.inputs@.filter(|i: InputDefinition| i.secret),
    {
        let ghost pred = |i: InputDefinition| i.secret;
        let mut r: Vec<&InputDefinition> = Vec::new();
        for k in 0..self.inputs.len()
            invariant
                pred == (|i: InputDefinition| i.secret),
                input_derefs(r@) == self.inputs@.take(k as int).filter(pred),
        {
            proof {
                reveal_with_fuel(Seq::filter, 1);
                assert(self.inputs@.take(k + 1).drop_last() =~= self.inputs@.take(k as int));
            }
            if self.inputs[k].secret {
                let ghost before = r@;
                r.push(&self.inputs[k]);
                assert(input_derefs(r@) =~= input_derefs(before).push(self.inputs@[k as int]));
            }
        }
        assert(self.inputs@.take(self.inputs.len() as int) =~= self.inputs@);
        r
    }

    /// The name used for tool prefixing: the alias, else the ID.
    pub fn effective_prefix(&self) -> (r: &str)
        ensures
            r@ == match self.alias {
                Some(a) => a@,
                None => self.id@,
            },
    {
        match &self.alias {
            Some(a) => a.as_str(),
            None => self.id.as_str(),
        }
    }
}

/// The servers of (ID, server) pairs, in order.
pub open spec fn values(v: Seq<(String, RegistryServer)>) -> Seq<RegistryServer> {
    v.map_values(|p: (String, RegistryServer)| p.1)
}

/// A server of the category: its primary category or one of the others.
pub open spec fn in_category(s: RegistryServer, c: Seq<char>) -> bool {
    (s.category matches Some(x) && x.0@ == c) || exists|j: int| 0 <= j < s.categories@.len() && #[trigger] s.categories@[j].0@ == c
}

/// A server with a tag equal to `t` but for ASCII case.
pub open spec fn has_tag(s: RegistryServer, t: Seq<char>) -> bool {
    exists|j: int| 0 <= j < s.tags@.len() && ascii_lower_seq(#[trigger] s.tags@[j]@) == ascii_lower_seq(t)
}

/// `text` holds `q` once both are lowercased.
pub open spec fn mentions(text: Seq<char>, q: Seq<char>) -> bool {
    has_substring(unicode_lowercase(text), unicode_lowercase(q))
}

/// A server whose name, ID, description or a tag mentions the query,
/// ignoring case.
pub open spec fn matches_query(s: RegistryServer, q: Seq<char>) -> bool {
    mentions(s.name@, q) || mentions(s.id@, q) || (s.description matches Some(d) && mentions(d@, q))
        || exists|j: int| 0 <= j < s.tags@.len() && mentions(#[trigger] s.tags@[j]@, q)
}

/// The complete registry: servers by ID, in order.
#[derive(Debug, Clone)]
pub struct ServerRegistry {
    /// Schema version
    pub version: String,
    /// Registry metadata
    pub metadata: RegistryMetadata,
    /// The servers as (ID, server) pairs
    pub servers: Vec<(String, RegistryServer)>,
}

/// Whether two strings are equal but for ASCII case.
fn eq_ignore_ascii_case(a: &str, b: &str) -> (r: bool)
    ensures
        r == (ascii_lower_seq(a@) == ascii_lower_seq(b@)),
{
    let x = chars_of(a);
    let y = chars_of(b);
    if x.len() != y.len() {
        proof {
            assert(ascii_lower_seq(a@).len() != ascii_lower_seq(b@).len());
        }
        return false;
    }
    let mut i: usize = 0;
    while i < x.len()
        invariant
            x@ == a@,
            y@ == b@,
            x.len() == y.len(),
            i <= x.len(),
            forall|j: int| 0 <= j < i ==> ascii_lower_seq(a@)[j] == ascii_lower_seq(b@)[j],
        decreases x.len() - i,
    {
        if lower_char(x[i]) != lower_char(y[i]) {
            assert(ascii_lower_seq(a@)[i as int] != ascii_lower_seq(b@)[i as int]);
            return false;
        }
        i = i + 1;
    }
    assert(ascii_lower_seq(a@) =~= ascii_lower_seq(b@));
    true
}

/// Whether the server is in the category.
fn server_in_category(s: &RegistryServer, c: &ServerCategory) -> (r: bool)
    ensures
        r == in_category(*s, c.0@),
{
    match &s.category {
        Some(x) => {
            if str_eq(x.0.as_str(), c.0.as_str()) {
                return true;
            }
        },
        None => {},
    }
    let mut j: usize = 0;
    while j < s.categories.len()
        invariant
            j <= s.categories@.len(),
            !(s.category matches Some(x) && x.0@ == c.0@),
            forall|k: int| 0 <= k < j ==> s.categories@[k].0@ != c.0@,
        decreases s.categories@.len() - j,
    {
        if str_eq(s.categories[j].0.as_str(), c.0.as_str()) {
            return true;
        }
        j = j + 1;
    }
    false
}

/// Whether the server has the tag, ignoring ASCII case.
fn server_has_tag(s: &RegistryServer, t: &str) -> (r: bool)
    ensures
        r == has_tag(*s, t@),
{
    let mut j: usize = 0;
    while j < s.tags.len()
        invariant
            j <= s.tags@.len(),
            forall|k: int| 0 <= k < j ==> ascii_lower_seq(#[trigger] s.tags@[k]@) != ascii_lower_seq(t@),
        decreases s.tags@.len() - j,
    {
        if eq_ignore_ascii_case(s.tags[j].as_str(), t) {
            return true;
        }
        j = j + 1;
    }
    false
}

/// Whether the lowercase `text` holds the lowercase query.
fn lower_mentions(text: &str, q_lower: &str) -> (r: bool)
    ensures
        r == has_substring(unicode_lowercase(text@), q_lower@),
{
    let t = to_lowercase(text);
    str_contains(t.as_str(), q_lower)
}

/// Whether the server matches a search query.
fn server_matches_query(s: &RegistryServer, query: &str) -> (r: bool)
    ensures
        r == matches_query(*s, query@),
{
    let q = to_lowercase(query);
    if lower_mentions(s.name.as_str(), q.as_str()) || lower_mentions(s.id.as_str(), q.as_str()) {
        return true;
    }
    match &s.description {
        Some(d) => {
            if lower_mentions(d.as_str(), q.as_str()) {
                return true;
            }
        },
        None => {},
    }
    let mut j: usize = 0;
    while j < s.tags.len()
        invariant
            j <= s.tags@.len(),
            q@ == unicode_lowercase(query@),
            !mentions(s.name@, query@) && !mentions(s.id@, query@),
            !(s.description matches Some(d) && mentions(d@, query@)),
            forall|k: int| 0 <= k < j ==> !mentions(#[trigger] s.tags@[k]@, query@),
        decreases s.tags@.len() - j,
    {
        if lower_mentions(s.tags[j].as_str(), q.as_str()) {
            return true;
        }
        j = j + 1;
    }
    false
}

impl ServerRegistry {
    /// An empty registry of the current schema version.
    pub fn new() -> (r: Self)
        ensures
            r.version@ == REGISTRY_SCHEMA_VERSION@,
            r.servers@.len() == 0,
            r.metadata.name is None && r.metadata.description is None,
    {
        ServerRegistry { version: default_version(), metadata: RegistryMetadata::default(), servers: Vec::new() }
    }

    /// The server registered under an ID (the first, should two share it).
    pub fn get(&self, id: &str) -> (r: Option<&RegistryServer>)
        ensures
            match r {
                Some(s) => exists|i: int| 0 <= i < self.servers@.len() && self.servers@[i].0@ == id@
                    && *s == self.servers@[i].1 && forall|j: int| 0 <= j < i ==> #[trigger] self.servers@[j].0@ != id@,
                None => forall|i: int| 0 <= i < self.servers@.len() ==> #[trigger] self.servers@[i].0@ != id@,
            },
    {
        let mut i: usize = 0;
        while i < self.servers.len()
            invariant
                i <= self.servers@.len(),
                forall|j: int| 0 <= j < i ==> #[trigger] self.servers@[j].0@ != id@,
            decreases self.servers@.len() - i,
        {
            if str_eq(self.servers[i].0.as_str(), id) {
                return Some(&self.servers[i].1);
            }
            i = i + 1;
        }
        None
    }

    /// Every server ID, in order.
    pub fn server_ids(&self) -> (r: Vec<&str>)
        ensures
            r@.len() == self.servers@.len(),
            forall|i: int| 0 <= i < r@.len() ==> #[trigger] r@[i]@ == self.servers@[i].0@,
    {
        let mut r: Vec<&str> = Vec::new();
        for k in 0..self.servers.len()
            invariant
                r@.len() == k,
                forall|i: int| 0 <= i < k ==> #[trigger] r@[i]@ == self.servers@[i].0@,
        {
            r.push(self.servers[k].0.as_str());
        }
        r
    }

    /// The servers of a category, in order.
    pub fn by_category(&self, category: &ServerCategory) -> (r: Vec<&RegistryServer>)
        ensures
            derefs(r@) == values(self.servers@).filter(|s: RegistryServer| in_category(s, category.0@)),
    {
        let ghost pred = (|s: RegistryServer| in_category(s, category.0@));
        let mut r: Vec<&RegistryServer> = Vec::new();
        for k in 0..self.servers.len()
            invariant
                pred == (|s: RegistryServer| in_category(s, category.0@)),
                derefs(r@) == values(self.servers@).take(k as int).filter(pred),
        {
            proof {
                reveal_with_fuel(Seq::filter, 1);
                assert(values(self.servers@).take(k + 1).drop_last() =~= values(self.servers@).take(k as int));
            }
            let srv = &self.servers[k].1;
            if server_in_category(srv, category) {
                let ghost before = r@;
                r.push(srv);
                assert(derefs(r@) =~= derefs(before).push(values(self.servers@)[k as int]));
            }
        }
        assert(values(self.servers@).take(self.servers.len() as int) =~= values(self.servers@));
        r
    }

    /// The servers with a tag, ignoring ASCII case, in order.
    pub fn by_tag(&self, tag: &str) -> (r: Vec<&RegistryServer>)
        ensures
            derefs(r@) == values(self.servers@).filter(|s: RegistryServer| has_tag(s, tag@)),
    {
        let ghost pred = (|s: RegistryServer| has_tag(s, tag@));
        let mut r: Vec<&RegistryServer> = Vec::new();
        for k in 0..self.servers.len()
            invariant
                pred == (|s: RegistryServer| has_tag(s, tag@)),
                derefs(r@) == values(self.servers@).take(k as int).filter(pred),
        {
            proof {
                reveal_with_fuel(Seq::filter, 1);
                assert(values(self.servers@).take(k + 1).drop_last() =~= values(self.servers@).take(k as int));
            }
            let srv = &self.servers[k].1;
            if server_has_tag(srv, tag) {
                let ghost before = r@;
                r.push(srv);
                assert(derefs(r@) =~= derefs(before).push(values(self.servers@)[k as int]));
            }
        }
        assert(values(self.servers@).take(self.servers.len() as int) =~= values(self.servers@));
        r
    }

    /// The servers whose name, ID, description or a tag holds the query,
    /// ignoring case, in order.
    pub fn search(&self, query: &str) -> (r: Vec<&RegistryServer>)
        ensures
            derefs(r@) == values(self.servers@).filter(|s: RegistryServer| matches_query(s, query@)),
            derefs(r@) == search_result(*self, query@),
    {
        let ghost pred = (|s: RegistryServer| matches_query(s, query@));
        let mut r: Vec<&RegistryServer> = Vec::new();
        for k in 0..self.servers.len()
            invariant
                pred == (|s: RegistryServer| matches_query(s, query@)),
                derefs(r@) == values(self.servers@).take(k as int).filter(pred),
        {
            proof {
                reveal_with_fuel(Seq::filter, 1);
                assert(values(self.servers@).take(k + 1).drop_last() =~= values(self.servers@).take(k as int));
            }
            let srv = &self.servers[k].1;
            if server_matches_query(srv, query) {
                let ghost before = r@;
                r.push(srv);
                assert(derefs(r@) =~= derefs(before).push(values(self.servers@)[k as int]));
            }
        }
        assert(values(self.servers@).take(self.servers.len() as int) =~= values(self.servers@));
        r
    }

    /// The featured or verified servers, in order.
    pub fn featured(&self) -> (r: Vec<&RegistryServer>)
        ensures
            derefs(r@) == values(self.servers@).filter(|s: RegistryServer| s.quality.featured || s.quality.verified),
    {
        let ghost pred = (|s: RegistryServer| s.quality.featured || s.quality.verified);
        let mut r: Vec<&RegistryServer> = Vec::new();
        for k in 0..self.servers.len()
            invariant
                pred == (|s: RegistryServer| s.quality.featured || s.quality.verified),
                derefs(r@) == values(self.servers@).take(k as int).filter(pred),
        {
            proof {
                reveal_with_fuel(Seq::filter, 1);
                assert(values(self.servers@).take(k + 1).drop_last() =~= values(self.servers@).take(k as int));
            }
            let srv = &self.servers[k].1;
            if srv.quality.featured || srv.quality.verified {
                let ghost before = r@;
                r.push(srv);
                assert(derefs(r@) =~= derefs(before).push(values(self.servers@)[k as int]));
            }
        }
        assert(values(self.servers@).take(self.servers.len() as int) =~= values(self.servers@));
        r
    }

    /// The official servers, in order.
    pub fn official(&self) -> (r: Vec<&RegistryServer>)
        ensures
            derefs(r@) == values(self.servers@).filter(|s: RegistryServer| s.quality.official),
    {
        let ghost pred = (|s: RegistryServer| s.quality.official);
        let mut r: Vec<&RegistryServer> = Vec::new();
        for k in 0..self.servers.len()
            invariant
                pred == (|s: RegistryServer| s.quality.official),
                derefs(r@) == values(self.servers@).take(k as int).filter(pred),
        {
            proof {
                reveal_with_fuel(Seq::filter, 1);
                assert(values(self.servers@).take(k + 1).drop_last() =~= values(self.servers@).take(k as int));
            }
            let srv = &self.servers[k].1;
            if srv.quality.official {
                let ghost before = r@;
                r.push(srv);
                assert(derefs(r@) =~= derefs(before).push(values(self.servers@)[k as int]));
            }
        }
        assert(values(self.servers@).take(self.servers.len() as int) =~= values(self.servers@));
        r
    }
}

impl Default for ServerRegistry {
    fn default() -> (r: Self)
        ensures
            r.version@ == REGISTRY_SCHEMA_VERSION@,
            r.servers@.len() == 0,
    {
        ServerRegistry::new()
    }
}

/// Looking up a tag does not depend on its ASCII case.
pub proof fn law_tag_lookup_ignores_ascii_case(s: RegistryServer, t: Seq<char>)
    ensures
        has_tag(s, t) == has_tag(s, ascii_lower_seq(t)),
{
    assert forall|x: Seq<char>| ascii_lower_seq(ascii_lower_seq(x)) == ascii_lower_seq(x) by {
        assert(ascii_lower_seq(ascii_lower_seq(x)) =~= ascii_lower_seq(x));
    }
    assert(ascii_lower_seq(ascii_lower_seq(t)) == ascii_lower_seq(t));
}

/// What `search(query)` returns for a registry: its servers that match, in
/// order.
pub open spec fn search_result(reg: ServerRegistry, query: Seq<char>) -> Seq<RegistryServer> {
    values(reg.servers@).filter(|s: RegistryServer| matches_query(s, query))
}

/// A search finds every server one of whose tags holds the query, ignoring
/// case; likewise one whose name, ID or description holds it.
pub proof fn law_search_finds_every_mention(reg: ServerRegistry, query: Seq<char>, k: int)
    requires
        0 <= k < reg.servers@.len(),
        ({
            let s = reg.servers@[k].1;
            let q = unicode_lowercase(query);
            ||| has_substring(unicode_lowercase(s.name@), q)
            ||| has_substring(unicode_lowercase(s.id@), q)
            ||| (s.description matches Some(d) && has_substring(unicode_lowercase(d@), q))
            ||| exists|j: int| 0 <= j < s.tags@.len() && has_substring(unicode_lowercase(#[trigger] s.tags@[j]@), q)
        }),
    ensures
        search_result(reg, query).contains(reg.servers@[k].1),
{
    let s = reg.servers@[k].1;
    if exists|j: int| 0 <= j < s.tags@.len() && has_substring(unicode_lowercase(#[trigger] s.tags@[j]@), unicode_lowercase(query)) {
        let j = choose|j: int| 0 <= j < s.tags@.len() && has_substring(unicode_lowercase(#[trigger] s.tags@[j]@), unicode_lowercase(query));
        assert(mentions(s.tags@[j]@, query));
    }
    assert(values(reg.servers@)[k] == s);
    values(reg.servers@).lemma_filter_contains(|s: RegistryServer| matches_query(s, query), k);
}

/// Every server a search returns holds the query, ignoring case, in its
/// name, ID, description or one of its tags.
pub proof fn law_search_returns_only_mentions(reg: ServerRegistry, query: Seq<char>, i: int)
    requires
        0 <= i < search_result(reg, query).len(),
    ensures
        ({
            let s = search_result(reg, query)[i];
            let q = unicode_lowercase(query);
            ||| has_substring(unicode_lowercase(s.name@), q)
            ||| has_substring(unicode_lowercase(s.id@), q)
            ||| (s.description matches Some(d) && has_substring(unicode_lowercase(d@), q))
            ||| exists|j: int| 0 <= j < s.tags@.len() && has_substring(unicode_lowercase(#[trigger] s.tags@[j]@), q)
        }),
{
    values(reg.servers@).lemma_filter_pred(|s: RegistryServer| matches_query(s, query), i);
}

} // verus!
