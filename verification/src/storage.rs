//! Kinds of stored features, as the feature repository names them.

use vstd::prelude::*;

use crate::feature::feature_type_str;
use crate::ids::{new_uuid_string, now_epoch_secs};
use crate::text::{owned, str_eq};

verus! {

/// Kind of a stored feature.
#[derive(Debug, Clone, Copy, PartialEq, Eq, Structural)]
pub enum FeatureType {
    /// Tool
    Tool,
    /// Prompt
    Prompt,
    /// Resource
    Resource,
}

/// The stored name of a kind.
pub open spec fn stored_name(t: FeatureType) -> Seq<char> {
    match t {
        FeatureType::Tool => feature_type_str(crate::feature::FeatureType::Tool),
        FeatureType::Prompt => feature_type_str(crate::feature::FeatureType::Prompt),
        FeatureType::Resource => feature_type_str(crate::feature::FeatureType::Resource),
    }
}

/// The kind a stored name stands for (exact match), if any.
pub open spec fn stored_kind(s: Seq<char>) -> Option<FeatureType> {
    if s == stored_name(FeatureType::Tool) {
        Some(FeatureType::Tool)
    } else if s == stored_name(FeatureType::Prompt) {
        Some(FeatureType::Prompt)
    } else if s == stored_name(FeatureType::Resource) {
        Some(FeatureType::Resource)
    } else {
        None
    }
}

impl FeatureType {
    /// The stored name: "tool", "prompt" or "resource".
    pub fn as_str(&self) -> (s: &'static str)
        ensures
            s@ == stored_name(*self),
    {
        proof {
            reveal_strlit("tool");
            reveal_strlit("prompt");
            reveal_strlit("resource");
        }
        match self {
            FeatureType::Tool => "tool",
            FeatureType::Prompt => "prompt",
            FeatureType::Resource => "resource",
        }
    }

    /// The kind a stored name stands for (exact, case-sensitive match).
    pub fn parse(s: &str) -> (r: Option<Self>)
        ensures
            r == stored_kind(s@),
    {
        proof {
            reveal_strlit("tool");
            reveal_strlit("prompt");
            reveal_strlit("resource");            assert("tool"@ =~= stored_name(FeatureType::Tool));
            assert("prompt"@ =~= stored_name(FeatureType::Prompt));
            assert("resource"@ =~= stored_name(FeatureType::Resource));
        }
        if str_eq(s, "tool") {
            Some(FeatureType::Tool)
        } else if str_eq(s, "prompt") {
            Some(FeatureType::Prompt)
        } else if str_eq(s, "resource") {
            Some(FeatureType::Resource)
        } else {
            None
        }
    }
}

/// Parsing the stored name of a kind gives the kind back.
pub proof fn law_stored_name_round_trip(t: FeatureType)
    ensures
        stored_kind(stored_name(t)) == Some(t),
{
    match t {
        FeatureType::Tool => {},
        FeatureType::Prompt => {
            assert(stored_name(t).len() != stored_name(FeatureType::Tool).len());
        },
        FeatureType::Resource => {
            assert(stored_name(t).len() != stored_name(FeatureType::Tool).len());
            assert(stored_name(t).len() != stored_name(FeatureType::Prompt).len());
        },
    }
}

/// A discovered feature as the repository stores it. `raw_json` holds the
/// backend's complete feature object as JSON text; times are seconds since
/// the UNIX epoch.
#[derive(Debug, Clone)]
pub struct ServerFeature {
    /// Record ID
    pub id: String,
    /// Space
    pub space_id: String,
    /// Server
    pub server_id: String,
    /// Kind
    pub feature_type: FeatureType,
    /// MCP name
    pub feature_name: String,
    /// Display name
    pub display_name: Option<String>,
    /// Description
    pub description: Option<String>,
    /// Complete JSON from the backend
    pub raw_json: Option<String>,
    /// First discovered
    pub discovered_at: u64,
    /// Last seen
    pub last_seen_at: u64,
    /// Currently offered by the server
    pub is_available: bool,
    /// Disabled by the user
    pub disabled: bool,
}

/// A fresh feature record: available, enabled, named `name`, discovered now.
pub open spec fn fresh_record(f: ServerFeature, space_id: Seq<char>, server_id: Seq<char>, t: FeatureType, name: Seq<char>) -> bool {
    &&& f.id@.len() == 36
    &&& f.space_id@ == space_id && f.server_id@ == server_id
    &&& f.feature_type == t && f.feature_name@ == name
    &&& f.display_name is None && f.description is None && f.raw_json is None
    &&& f.discovered_at == f.last_seen_at
    &&& f.is_available && !f.disabled
}

impl ServerFeature {
    /// A fresh record of a feature of kind `t` with a random ID, seen now.
    fn fresh(space_id: &str, server_id: &str, t: FeatureType, name: &str) -> (f: Self)
        ensures
            fresh_record(f, space_id@, server_id@, t, name@),
    {
        let now = now_epoch_secs();
        ServerFeature {
            id: new_uuid_string(),
            space_id: owned(space_id),
            server_id: owned(server_id),
            feature_type: t,
            feature_name: owned(name),
            display_name: None,
            description: None,
            raw_json: None,
            discovered_at: now,
            last_seen_at: now,
            is_available: true,
            disabled: false,
        }
    }

    /// A new tool record.
    pub fn new_tool(space_id: &str, server_id: &str, name: &str) -> (f: Self)
        ensures
            fresh_record(f, space_id@, server_id@, FeatureType::Tool, name@),
    {
        Self::fresh(space_id, server_id, FeatureType::Tool, name)
    }

    /// A new prompt record.
    pub fn new_prompt(space_id: &str, server_id: &str, name: &str) -> (f: Self)
        ensures
            fresh_record(f, space_id@, server_id@, FeatureType::Prompt, name@),
    {
        Self::fresh(space_id, server_id, FeatureType::Prompt, name)
    }

    /// A new resource record.
    pub fn new_resource(space_id: &str, server_id: &str, name: &str) -> (f: Self)
        ensures
            fresh_record(f, space_id@, server_id@, FeatureType::Resource, name@),
    {
        Self::fresh(space_id, server_id, FeatureType::Resource, name)
    }

    /// This record with a display name.
    pub fn with_display_name(self, name: &str) -> (f: Self)
        ensures
            f.display_name matches Some(n) && n@ == name@,
            f == (ServerFeature { display_name: f.display_name, ..self }),
    {
        ServerFeature { display_name: Some(owned(name)), ..self }
    }

    /// This record with a description.
    pub fn with_description(self, desc: &str) -> (f: Self)
        ensures
            f.description matches Some(d) && d@ == desc@,
            f == (ServerFeature { description: f.description, ..self }),
    {
        ServerFeature { description: Some(owned(desc)), ..self }
    }

    /// This record with the backend's JSON.
    pub fn with_raw_json(self, json: String) -> (f: Self)
        ensures
            f == (ServerFeature { raw_json: Some(json), ..self }),
    {
        ServerFeature { raw_json: Some(json), ..self }
    }
}

} // verus!
