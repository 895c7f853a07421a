//! Feature sets: named permission bundles of features and other sets.

use vstd::prelude::*;

use crate::text::str_eq;

verus! {

/// Kind of feature set.
#[derive(Debug, Clone, Copy, PartialEq, Eq, Structural, Hash)]
pub enum FeatureSetType {
    /// Grants every available feature of the space
    All,
    /// The space's default set: explicit members only
    Default,
    /// Every feature of one server
    ServerAll,
    /// User-defined set
    Custom,
}

/// Kind of member of a feature set.
#[derive(Debug, Clone, Copy, PartialEq, Eq, Structural, Hash)]
pub enum MemberType {
    /// A single feature, by feature ID
    Feature,
    /// Another feature set, by set ID
    FeatureSet,
}

/// Whether a member adds to or removes from the set.
#[derive(Debug, Clone, Copy, PartialEq, Eq, Structural, Hash)]
pub enum MemberMode {
    /// The member's features are granted
    Include,
    /// The member's features are withheld
    Exclude,
}

/// One member of a feature set.
#[derive(Debug, Clone)]
pub struct FeatureSetMember {
    /// Member record ID
    pub id: String,
    /// The set this member belongs to
    pub feature_set_id: String,
    /// Feature or feature set
    pub member_type: MemberType,
    /// ID of the feature or feature set
    pub member_id: String,
    /// Include or exclude
    pub mode: MemberMode,
}

/// A feature set; timestamps are seconds since the UNIX epoch.
#[derive(Debug, Clone)]
pub struct FeatureSet {
    /// Set ID
    pub id: String,
    /// Display name
    pub name: String,
    /// Optional description
    pub description: Option<String>,
    /// Optional icon
    pub icon: Option<String>,
    /// Owning space
    pub space_id: Option<String>,
    /// Kind of set
    pub feature_set_type: FeatureSetType,
    /// Server of a server-all set
    pub server_id: Option<String>,
    /// Created by the system, not the user
    pub is_builtin: bool,
    /// Soft-deleted
    pub is_deleted: bool,
    /// Creation time
    pub created_at: u64,
    /// Last update time
    pub updated_at: u64,
    /// Members (features and nested sets)
    pub members: Vec<FeatureSetMember>,
}

/// The stored name of a set kind.
pub open spec fn set_type_str(t: FeatureSetType) -> Seq<char> {
    match t {
        FeatureSetType::All => "all"@,
        FeatureSetType::Default => "default"@,
        FeatureSetType::ServerAll => "server-all"@,
        FeatureSetType::Custom => "custom"@,
    }
}

/// The stored name of a member kind.
pub open spec fn member_type_str(t: MemberType) -> Seq<char> {
    match t {
        MemberType::Feature => "feature"@,
        MemberType::FeatureSet => "feature_set"@,
    }
}

/// The stored name of a member mode.
pub open spec fn member_mode_str(m: MemberMode) -> Seq<char> {
    match m {
        MemberMode::Include => "include"@,
        MemberMode::Exclude => "exclude"@,
    }
}

impl FeatureSetType {
    /// "all", "default", "server-all" or "custom".
    pub fn as_str(&self) -> (s: &'static str)
        ensures
            s@ == set_type_str(*self),
    {
        match self {
            FeatureSetType::All => "all",
            FeatureSetType::Default => "default",
            FeatureSetType::ServerAll => "server-all",
            FeatureSetType::Custom => "custom",
        }
    }

    /// The kind whose stored name is `s`, if any.
    pub fn parse(s: &str) -> (r: Option<Self>)
        ensures
            r matches Some(t) ==> set_type_str(t) == s@,
            r is None ==> forall|t: FeatureSetType| set_type_str(t) != s@,
    {
        if str_eq(s, "all") {
            Some(FeatureSetType::All)
        } else if str_eq(s, "default") {
            Some(FeatureSetType::Default)
        } else if str_eq(s, "server-all") {
            Some(FeatureSetType::ServerAll)
        } else if str_eq(s, "custom") {
            Some(FeatureSetType::Custom)
        } else {
            None
        }
    }
}

impl MemberType {
    /// "feature" or "feature_set".
    pub fn as_str(&self) -> (s: &'static str)
        ensures
            s@ == member_type_str(*self),
    {
        match self {
            MemberType::Feature => "feature",
            MemberType::FeatureSet => "feature_set",
        }
    }

    /// The member kind whose stored name is `s`, if any.
    pub fn parse(s: &str) -> (r: Option<Self>)
        ensures
            r matches Some(t) ==> member_type_str(t) == s@,
            r is None ==> forall|t: MemberType| member_type_str(t) != s@,
    {
        if str_eq(s, "feature") {
            Some(MemberType::Feature)
        } else if str_eq(s, "feature_set") {
            Some(MemberType::FeatureSet)
        } else {
            None
        }
    }
}

impl MemberMode {
    /// "include" or "exclude".
    pub fn as_str(&self) -> (s: &'static str)
        ensures
            s@ == member_mode_str(*self),
    {
        match self {
            MemberMode::Include => "include",
            MemberMode::Exclude => "exclude",
        }
    }

    /// The mode whose stored name is `s`, if any.
    pub fn parse(s: &str) -> (r: Option<Self>)
        ensures
            r matches Some(m) ==> member_mode_str(m) == s@,
            r is None ==> forall|m: MemberMode| member_mode_str(m) != s@,
    {
        if str_eq(s, "include") {
            Some(MemberMode::Include)
        } else if str_eq(s, "exclude") {
            Some(MemberMode::Exclude)
        } else {
            None
        }
    }
}

} // verus!
