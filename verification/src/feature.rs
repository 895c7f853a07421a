//! Discovered MCP features (tools, prompts, resources) of a server.

use vstd::prelude::*;

use crate::ids::{new_uuid_string, now_epoch_secs};
use crate::text::{all_ascii, ascii_lower_seq, owned, push_char, str_eq, to_lowercase, unicode_lowercase};

verus! {

/// Kind of MCP feature.
#[derive(Debug, Clone, Copy, PartialEq, Eq, Structural, Hash)]
pub enum FeatureType {
    /// Tool that can be invoked
    Tool,
    /// Prompt template
    Prompt,
    /// Resource that can be read
    Resource,
}

/// The stored name of a feature kind.
pub open spec fn feature_type_str(t: FeatureType) -> Seq<char> {
    match t {
        FeatureType::Tool => seq!['t', 'o', 'o', 'l'],
        FeatureType::Prompt => seq!['p', 'r', 'o', 'm', 'p', 't'],
        FeatureType::Resource => seq!['r', 'e', 's', 'o', 'u', 'r', 'c', 'e'],
    }
}

impl Default for FeatureType {
    fn default() -> (r: Self)
        ensures
            r == FeatureType::Tool,
    {
        FeatureType::Tool
    }
}

/// A feature discovered from an MCP server in a space.
///
/// `raw_json` holds the backend's complete feature object as JSON text;
/// timestamps are seconds since the UNIX epoch.
#[derive(Debug, Clone)]
pub struct ServerFeature {
    /// Unique ID of this feature record
    pub id: String,
    /// Space the feature was discovered in
    pub space_id: String,
    /// Server the feature came from
    pub server_id: String,
    /// Optional server alias used for prefixing
    pub server_alias: Option<String>,
    /// Kind of feature
    pub feature_type: FeatureType,
    /// MCP feature name (unique per server and kind)
    pub feature_name: String,
    /// Human-readable display name
    pub display_name: Option<String>,
    /// Description of the feature
    pub description: Option<String>,
    /// Complete feature object from the backend, as JSON text
    pub raw_json: Option<String>,
    /// When the feature was first discovered
    pub discovered_at: u64,
    /// When the feature was last seen
    pub last_seen_at: u64,
    /// Whether the feature is currently available
    pub is_available: bool,
    /// Whether the user disabled the feature
    pub disabled: bool,
}

/// An owned copy of an optional string.
pub fn copy_opt(s: &Option<String>) -> (r: Option<String>)
    ensures
        r == *s,
{
    match s {
        Some(v) => Some(v.clone()),
        None => None,
    }
}

/// `a` followed by `b`.
pub fn join2(a: &str, b: &str) -> (r: String)
    ensures
        r@ == a@ + b@,
{
    let mut r = owned(a);
    r.append(b);
    r
}

impl FeatureType {
    /// The stored name: "tool", "prompt" or "resource".
    pub fn as_str(&self) -> (s: &'static str)
        ensures
            s@ == feature_type_str(*self),
    {
        proof {
            reveal_strlit("tool");
            reveal_strlit("prompt");
            reveal_strlit("resource");
        }
        match self {
            FeatureType::Tool => "tool",
            FeatureType::Prompt => "prompt",
            FeatureType::Resource => "resource",
        }
    }
}

/// The kind a stored name stands for, if any.
pub open spec fn feature_type_of(s: Seq<char>) -> Option<FeatureType> {
    if s == feature_type_str(FeatureType::Tool) {
        Some(FeatureType::Tool)
    } else if s == feature_type_str(FeatureType::Prompt) {
        Some(FeatureType::Prompt)
    } else if s == feature_type_str(FeatureType::Resource) {
        Some(FeatureType::Resource)
    } else {
        None
    }
}

impl FeatureType {
    /// The kind named by `s`, ignoring case (by Unicode lowercasing).
    pub fn parse(s: &str) -> (r: Option<Self>)
        ensures
            r == feature_type_of(unicode_lowercase(s@)),
            all_ascii(s@) ==> r == feature_type_of(ascii_lower_seq(s@)),
            feature_type_of(s@) matches Some(t) ==> r == Some(t),
    {
        let lower = to_lowercase(s);
        proof {
            reveal_strlit("tool");
            reveal_strlit("prompt");
            reveal_strlit("resource");
            assert("tool"@ =~= feature_type_str(FeatureType::Tool));
            assert("prompt"@ =~= feature_type_str(FeatureType::Prompt));
            assert("resource"@ =~= feature_type_str(FeatureType::Resource));
            if feature_type_of(s@) is Some {
                lemma_stored_name_lowercase(s@);
            }
        }
        if str_eq(lower.as_str(), "tool") {
            Some(FeatureType::Tool)
        } else if str_eq(lower.as_str(), "prompt") {
            Some(FeatureType::Prompt)
        } else if str_eq(lower.as_str(), "resource") {
            Some(FeatureType::Resource)
        } else {
            None
        }
    }
}

/// A stored kind name is ASCII lowercase: ASCII lowercasing leaves it as it is.
proof fn lemma_stored_name_lowercase(s: Seq<char>)
    requires
        feature_type_of(s) is Some,
    ensures
        all_ascii(s),
        ascii_lower_seq(s) == s,
{
    assert(ascii_lower_seq(s) =~= s);
}

/// Reading back the stored name of a kind gives the kind.
pub proof fn law_feature_type_name_round_trip(t: FeatureType)
    ensures
        feature_type_of(feature_type_str(t)) == Some(t),
{
    match t {
        FeatureType::Tool => {},
        FeatureType::Prompt => {
            assert(feature_type_str(t).len() != feature_type_str(FeatureType::Tool).len());
        },
        FeatureType::Resource => {
            assert(feature_type_str(t).len() != feature_type_str(FeatureType::Tool).len());
            assert(feature_type_str(t).len() != feature_type_str(FeatureType::Prompt).len());
        },
    }
}

impl ServerFeature {
    /// An exact copy of this feature.
    pub fn duplicate(&self) -> (r: Self)
        ensures
            r == *self,
    {
        ServerFeature {
            id: self.id.clone(),
            space_id: self.space_id.clone(),
            server_id: self.server_id.clone(),
            server_alias: copy_opt(&self.server_alias),
            feature_type: self.feature_type,
            feature_name: self.feature_name.clone(),
            display_name: copy_opt(&self.display_name),
            description: copy_opt(&self.description),
            raw_json: copy_opt(&self.raw_json),
            discovered_at: self.discovered_at,
            last_seen_at: self.last_seen_at,
            is_available: self.is_available,
            disabled: self.disabled,
        }
    }

    /// A newly discovered, available feature with a fresh random ID,
    /// discovered and last seen now.
    pub fn new(space_id: &str, server_id: &str, feature_type: FeatureType, feature_name: &str) -> (f:
        Self)
        ensures
            f.id@.len() == 36,
            f.space_id@ == space_id@,
            f.server_id@ == server_id@,
            f.server_alias is None,
            f.feature_type == feature_type,
            f.feature_name@ == feature_name@,
            f.display_name is None,
            f.description is None,
            f.raw_json is None,
            f.discovered_at == f.last_seen_at,
            f.is_available,
            !f.disabled,
    {
        let now = now_epoch_secs();
        ServerFeature {
            id: new_uuid_string(),
            space_id: owned(space_id),
            server_id: owned(server_id),
            server_alias: None,
            feature_type,
            feature_name: owned(feature_name),
            display_name: None,
            description: None,
            raw_json: None,
            discovered_at: now,
            last_seen_at: now,
            is_available: true,
            disabled: false,
        }
    }

    /// A new tool feature.
    pub fn tool(space_id: &str, server_id: &str, name: &str) -> (f: Self)
        ensures
            f.id@.len() == 36,
            f.space_id@ == space_id@,
            f.server_id@ == server_id@,
            f.server_alias is None,
            f.feature_type == FeatureType::Tool,
            f.feature_name@ == name@,
            f.display_name is None,
            f.description is None,
            f.raw_json is None,
            f.discovered_at == f.last_seen_at,
            f.is_available,
            !f.disabled,
    {
        Self::new(space_id, server_id, FeatureType::Tool, name)
    }

    /// A new prompt feature.
    pub fn prompt(space_id: &str, server_id: &str, name: &str) -> (f: Self)
        ensures
            f.id@.len() == 36,
            f.space_id@ == space_id@,
            f.server_id@ == server_id@,
            f.server_alias is None,
            f.feature_type == FeatureType::Prompt,
            f.feature_name@ == name@,
            f.display_name is None,
            f.description is None,
            f.raw_json is None,
            f.discovered_at == f.last_seen_at,
            f.is_available,
            !f.disabled,
    {
        Self::new(space_id, server_id, FeatureType::Prompt, name)
    }

    /// A new resource feature.
    pub fn resource(space_id: &str, server_id: &str, name: &str) -> (f: Self)
        ensures
            f.id@.len() == 36,
            f.space_id@ == space_id@,
            f.server_id@ == server_id@,
            f.server_alias is None,
            f.feature_type == FeatureType::Resource,
            f.feature_name@ == name@,
            f.display_name is None,
            f.description is None,
            f.raw_json is None,
            f.discovered_at == f.last_seen_at,
            f.is_available,
            !f.disabled,
    {
        Self::new(space_id, server_id, FeatureType::Resource, name)
    }

    /// Sets the display name.
    pub fn with_display_name(self, name: &str) -> (f: Self)
        ensures
            f == (ServerFeature { display_name: Some(f.display_name->0), ..self }),
            f.display_name->0@ == name@,
    {
        let mut f = self;
        f.display_name = Some(owned(name));
        f
    }

    /// Sets the description.
    pub fn with_description(self, desc: &str) -> (f: Self)
        ensures
            f == (ServerFeature { description: Some(f.description->0), ..self }),
            f.description->0@ == desc@,
    {
        let mut f = self;
        f.description = Some(owned(desc));
        f
    }

    /// Sets the raw JSON text of the backend's feature object.
    pub fn with_raw_json(self, json: String) -> (f: Self)
        ensures
            f == (ServerFeature { raw_json: Some(json), ..self }),
    {
        let mut f = self;
        f.raw_json = Some(json);
        f
    }

    /// Sets the server alias.
    pub fn with_server_alias(self, alias: Option<String>) -> (f: Self)
        ensures
            f == (ServerFeature { server_alias: alias, ..self }),
    {
        let mut f = self;
        f.server_alias = alias;
        f
    }

    /// Marks the feature as seen now: available again, with a new
    /// last-seen time.
    pub fn mark_seen(&mut self)
        ensures
            *final(self) == (ServerFeature {
                last_seen_at: final(self).last_seen_at,
                is_available: true,
                ..*old(self)
            }),
    {
        self.last_seen_at = now_epoch_secs();
        self.is_available = true;
    }

    /// Marks the feature as unavailable.
    pub fn mark_unavailable(&mut self)
        ensures
            *final(self) == (ServerFeature { is_available: false, ..*old(self) }),
    {
        self.is_available = false;
    }

    /// "space_id:server_id:type:feature_name".
    pub open spec fn unique_key_spec(&self) -> Seq<char> {
        self.space_id@ + seq![':'] + self.server_id@ + seq![':'] + feature_type_str(
            self.feature_type,
        ) + seq![':'] + self.feature_name@
    }

    /// A key that identifies the feature across spaces, servers and kinds.
    pub fn unique_key(&self) -> (k: String)
        ensures
            k@ == self.unique_key_spec(),
    {
        let mut k = self.space_id.clone();
        push_char(&mut k, ':');
        k.append(self.server_id.as_str());
        push_char(&mut k, ':');
        k.append(self.feature_type.as_str());
        push_char(&mut k, ':');
        k.append(self.feature_name.as_str());
        k
    }

    /// The prefix used in qualified names: the alias, else the server ID.
    pub open spec fn prefix_spec(&self) -> Seq<char> {
        match self.server_alias {
            Some(a) => a@,
            None => self.server_id@,
        }
    }

    /// The alias if there is one, else the server ID.
    pub fn prefix(&self) -> (p: &str)
        ensures
            p@ == self.prefix_spec(),
    {
        match &self.server_alias {
            Some(a) => a.as_str(),
            None => self.server_id.as_str(),
        }
    }

    /// Tools and prompts: "prefix_name"; resources: their URI unchanged.
    pub open spec fn qualified_name_spec(&self) -> Seq<char> {
        match self.feature_type {
            FeatureType::Resource => self.feature_name@,
            _ => self.prefix_spec() + seq!['_'] + self.feature_name@,
        }
    }

    /// The name under which clients see this feature.
    pub fn qualified_name(&self) -> (n: String)
        ensures
            n@ == self.qualified_name_spec(),
    {
        match self.feature_type {
            FeatureType::Resource => self.feature_name.clone(),
            _ => {
                let mut n = owned(self.prefix());
                push_char(&mut n, '_');
                n.append(self.feature_name.as_str());
                n
            },
        }
    }

    /// Like the qualified name, but always prefixed by the server ID.
    pub fn qualified_name_with_server_id(&self) -> (n: String)
        ensures
            n@ == match self.feature_type {
                FeatureType::Resource => self.feature_name@,
                _ => self.server_id@ + seq!['_'] + self.feature_name@,
            },
    {
        match self.feature_type {
            FeatureType::Resource => self.feature_name.clone(),
            _ => {
                let mut n = self.server_id.clone();
                push_char(&mut n, '_');
                n.append(self.feature_name.as_str());
                n
            },
        }
    }
}

/// The first underscore of a tool's or prompt's qualified name ends its
/// prefix when the prefix holds none: the name can be split back into the
/// prefix and the feature name.
pub proof fn law_qualified_name_splits(f: ServerFeature)
    requires
        f.feature_type != FeatureType::Resource,
        !f.prefix_spec().contains('_'),
    ensures
        ({
            let q = f.qualified_name_spec();
            let k = f.prefix_spec().len() as int;
            &&& q[k] == '_'
            &&& forall|i: int| 0 <= i < k ==> q[i] != '_'
            &&& q.subrange(0, k) == f.prefix_spec()
            &&& q.subrange(k + 1, q.len() as int) == f.feature_name@
        }),
{
    let q = f.qualified_name_spec();
    let p = f.prefix_spec();
    let k = p.len() as int;
    assert forall|i: int| 0 <= i < k implies q[i] != '_' by {
        assert(q[i] == p[i]);
        if p[i] == '_' {
            assert(p.contains('_'));
        }
    }
    assert(q.subrange(0, k) == p);
    assert(q.subrange(k + 1, q.len() as int) == f.feature_name@);
}

} // verus!
