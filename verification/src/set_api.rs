//! Administration of feature sets from the desktop app: the responses it
//! shows and the rules for creating, editing and changing the members of a
//! set.

use vstd::prelude::*;

use crate::feature::copy_opt;
use crate::feature_set::{
    member_mode_str, member_type_str, set_type_str, FeatureSet, FeatureSetMember, FeatureSetType,
    MemberMode, MemberType,
};
use crate::ids::{new_uuid_string, now_epoch_secs};
use crate::text::{owned, str_eq};

verus! {

/// A feature set member as the UI shows it.
#[derive(Debug, Clone)]
pub struct FeatureSetMemberResponse {
    /// Member record ID
    pub id: String,
    /// Owning set
    pub feature_set_id: String,
    /// "feature" or "feature_set"
    pub member_type: String,
    /// Feature or set ID
    pub member_id: String,
    /// "include" or "exclude"
    pub mode: String,
}

/// A feature set as the UI shows it.
#[derive(Debug, Clone)]
pub struct FeatureSetResponse {
    /// Set ID
    pub id: String,
    /// Name
    pub name: String,
    /// Description
    pub description: Option<String>,
    /// Icon
    pub icon: Option<String>,
    /// Owning space
    pub space_id: Option<String>,
    /// "all", "default", "server-all" or "custom"
    pub feature_set_type: String,
    /// Server of a server-all set
    pub server_id: Option<String>,
    /// Created by the system
    pub is_builtin: bool,
    /// Soft-deleted
    pub is_deleted: bool,
    /// Members
    pub members: Vec<FeatureSetMemberResponse>,
}

/// Input for creating a feature set.
#[derive(Debug, Clone)]
pub struct CreateFeatureSetInput {
    /// Name
    pub name: String,
    /// Owning space
    pub space_id: String,
    /// Description
    pub description: Option<String>,
    /// Icon
    pub icon: Option<String>,
}

/// Input for updating a feature set; absent fields are left as they are.
#[derive(Debug, Clone)]
pub struct UpdateFeatureSetInput {
    /// New name
    pub name: Option<String>,
    /// New description
    pub description: Option<String>,
    /// New icon
    pub icon: Option<String>,
}

/// Input for adding a member to a feature set.
#[derive(Debug, Clone)]
pub struct AddMemberInput {
    /// "feature" or "feature_set"
    pub member_type: String,
    /// Feature or set ID
    pub member_id: String,
    /// "include" or "exclude"; include when absent or unknown
    pub mode: Option<String>,
}

/// The response for a member.
pub open spec fn member_response_of(r: FeatureSetMemberResponse, m: FeatureSetMember) -> bool {
    r.id == m.id && r.feature_set_id == m.feature_set_id && r.member_type@ == member_type_str(m.member_type)
        && r.member_id == m.member_id && r.mode@ == member_mode_str(m.mode)
}

impl FeatureSetMemberResponse {
    /// The UI's view of a member.
    pub fn from_member(m: &FeatureSetMember) -> (r: Self)
        ensures
            member_response_of(r, *m),
    {
        FeatureSetMemberResponse {
            id: m.id.clone(),
            feature_set_id: m.feature_set_id.clone(),
            member_type: owned(m.member_type.as_str()),
            member_id: m.member_id.clone(),
            mode: owned(m.mode.as_str()),
        }
    }
}

impl FeatureSetResponse {
    /// The UI's view of a feature set and its members.
    pub fn from_set(fs: FeatureSet) -> (r: Self)
        ensures
            r.id == fs.id && r.name == fs.name && r.description == fs.description && r.icon == fs.icon,
            r.space_id == fs.space_id && r.server_id == fs.server_id,
            r.feature_set_type@ == set_type_str(fs.feature_set_type),
            r.is_builtin == fs.is_builtin && r.is_deleted == fs.is_deleted,
            r.members@.len() == fs.members@.len(),
            forall|i: int| 0 <= i < r.members@.len() ==> member_response_of(#[trigger] r.members@[i], fs.members@[i]),
    {
        let mut members: Vec<FeatureSetMemberResponse> = Vec::new();
        let mut i: usize = 0;
        while i < fs.members.len()
            invariant
                i <= fs.members@.len(),
                members@.len() == i,
                forall|j: int| 0 <= j < i ==> member_response_of(#[trigger] members@[j], fs.members@[j]),
            decreases fs.members@.len() - i,
        {
            members.push(FeatureSetMemberResponse::from_member(&fs.members[i]));
            i = i + 1;
        }
        let t = owned(fs.feature_set_type.as_str());
        FeatureSetResponse {
            id: fs.id,
            name: fs.name,
            description: fs.description,
            icon: fs.icon,
            space_id: fs.space_id,
            feature_set_type: t,
            server_id: fs.server_id,
            is_builtin: fs.is_builtin,
            is_deleted: fs.is_deleted,
            members,
        }
    }
}

/// The member kind an input names: a feature set for "feature_set", else a
/// feature.
pub open spec fn input_member_type(t: Seq<char>) -> MemberType {
    if t == "feature_set"@ {
        MemberType::FeatureSet
    } else {
        MemberType::Feature
    }
}

/// The mode an input names: exclude only for "exclude".
pub open spec fn input_mode(m: Option<String>) -> MemberMode {
    match m {
        Some(s) => if s@ == "exclude"@ {
            MemberMode::Exclude
        } else {
            MemberMode::Include
        },
        None => MemberMode::Include,
    }
}

/// Only default and custom sets have members that users may change; the
/// other kinds are computed.
pub open spec fn members_configurable(t: FeatureSetType) -> bool {
    t == FeatureSetType::Default || t == FeatureSetType::Custom
}

/// The member kind and mode of an input.
fn member_kind_and_mode(input: &AddMemberInput) -> (r: (MemberType, MemberMode))
    ensures
        r.0 == input_member_type(input.member_type@),
        r.1 == input_mode(input.mode),
{
    let t = if str_eq(input.member_type.as_str(), "feature_set") {
        MemberType::FeatureSet
    } else {
        MemberType::Feature
    };
    let m = match &input.mode {
        Some(s) => match MemberMode::parse(s.as_str()) {
            Some(m) => {
                proof {
                    reveal_strlit("include");
                    reveal_strlit("exclude");
                    assert("include"@[0] != "exclude"@[0]);
                }
                m
            },
            None => {
                proof {
                    assert(member_mode_str(MemberMode::Exclude) != s@);
                }
                MemberMode::Include
            },
        },
        None => MemberMode::Include,
    };
    (t, m)
}

/// A new custom set in a space, with the input's description and icon, a
/// fresh random ID, no members, created now.
pub fn new_custom_feature_set(input: CreateFeatureSetInput) -> (fs: FeatureSet)
    ensures
        fs.name == input.name,
        fs.space_id == Some(input.space_id),
        fs.description == input.description && fs.icon == input.icon,
        fs.feature_set_type == FeatureSetType::Custom,
        fs.server_id is None,
        !fs.is_builtin && !fs.is_deleted,
        fs.members@.len() == 0,
        fs.created_at == fs.updated_at,
{
    let now = now_epoch_secs();
    FeatureSet {
        id: new_uuid_string(),
        name: input.name,
        description: input.description,
        icon: input.icon,
        space_id: Some(input.space_id),
        feature_set_type: FeatureSetType::Custom,
        server_id: None,
        is_builtin: false,
        is_deleted: false,
        created_at: now,
        updated_at: now,
        members: Vec::new(),
    }
}

/// The error for editing a built-in set.
pub open spec fn builtin_message() -> Seq<char> {
    "Cannot modify builtin feature set"@
}

/// Applies an update to a user-defined set: the given name, description and
/// icon replace the old ones. Built-in sets are refused.
pub fn update_feature_set(fs: &mut FeatureSet, input: UpdateFeatureSetInput) -> (r: Result<(), String>)
    ensures
        old(fs).is_builtin ==> (r matches Err(m) && m@ == builtin_message() && *final(fs) == *old(fs)),
        !old(fs).is_builtin ==> r is Ok && final(fs).name == match input.name {
            Some(n) => n,
            None => old(fs).name,
        } && final(fs).description == match input.description {
            Some(d) => Some(d),
            None => old(fs).description,
        } && final(fs).icon == match input.icon {
            Some(i) => Some(i),
            None => old(fs).icon,
        } && final(fs).id == old(fs).id && final(fs).members == old(fs).members && final(fs).space_id
            == old(fs).space_id && final(fs).feature_set_type == old(fs).feature_set_type,
{
    if fs.is_builtin {
        return Err(owned("Cannot modify builtin feature set"));
    }
    match input.name {
        Some(n) => fs.name = n,
        None => {},
    }
    match input.description {
        Some(d) => fs.description = Some(d),
        None => {},
    }
    match input.icon {
        Some(i) => fs.icon = Some(i),
        None => {},
    }
    fs.updated_at = now_epoch_secs();
    Ok(())
}

/// The error for changing the members of a computed set.
pub open spec fn not_configurable_message(t: FeatureSetType) -> Seq<char> {
    "Cannot modify members of '"@ + set_type_str(t) + "' type feature set"@
}

/// The error for replacing the members of a computed set.
pub open spec fn not_configurable_set_message(t: FeatureSetType) -> Seq<char> {
    "Cannot modify members of '"@ + set_type_str(t)
        + "' type feature set. Only 'default' and 'custom' types are configurable."@
}

/// The error for a member that is already there.
pub open spec fn duplicate_message() -> Seq<char> {
    "Member already exists in this feature set"@
}

/// The error for a set that would contain itself.
pub open spec fn self_reference_message() -> Seq<char> {
    "Cannot add a feature set to itself"@
}

/// The error for nesting a set of a kind that cannot be nested.
pub open spec fn nesting_message(t: FeatureSetType) -> Seq<char> {
    "Cannot include '"@ + set_type_str(t)
        + "' type feature sets in other feature sets. Only 'custom' types can be included."@
}

/// A member of this kind with this ID is in the set.
pub open spec fn has_member(members: Seq<FeatureSetMember>, t: MemberType, id: Seq<char>) -> bool {
    exists|i: int| 0 <= i < members.len() && #[trigger] members[i].member_type == t && members[i].member_id@ == id
}

/// Why adding a member is refused, in the order the checks are made; none
/// when it is accepted. `target_type` is the kind of the set a nested-set
/// member names, when that set was found.
pub open spec fn add_refusal(
    fs: FeatureSet,
    feature_set_id: Seq<char>,
    input: AddMemberInput,
    target_type: Option<FeatureSetType>,
) -> Option<Seq<char>> {
    let t = input_member_type(input.member_type@);
    if !members_configurable(fs.feature_set_type) {
        Some(not_configurable_message(fs.feature_set_type))
    } else if has_member(fs.members@, t, input.member_id@) {
        Some(duplicate_message())
    } else if t == MemberType::FeatureSet && input.member_id@ == feature_set_id {
        Some(self_reference_message())
    } else if t == MemberType::FeatureSet && (target_type == Some(FeatureSetType::All) || target_type == Some(
        FeatureSetType::Default,
    )) {
        Some(nesting_message(target_type->0))
    } else {
        None
    }
}

/// Builds "prefix" + the set kind's name + "suffix".
fn type_message(prefix: &str, t: FeatureSetType, suffix: &str) -> (r: String)
    ensures
        r@ == prefix@ + set_type_str(t) + suffix@,
{
    let mut r = owned(prefix);
    r.append(t.as_str());
    r.append(suffix);
    r
}

/// Adds a member to a default or custom set: a feature, or another custom
/// set (never the set itself, nor an "all" or "default" set), included
/// unless the input asks to exclude it, and not already present.
pub fn add_feature_set_member(
    fs: &mut FeatureSet,
    feature_set_id: &str,
    input: AddMemberInput,
    target_type: Option<FeatureSetType>,
) -> (r: Result<(), String>)
    ensures
        match add_refusal(*old(fs), feature_set_id@, input, target_type) {
            Some(m) => r matches Err(e) && e@ == m && *final(fs) == *old(fs),
            None => r is Ok && final(fs).members@.len() == old(fs).members@.len() + 1
                && final(fs).members@.drop_last() == old(fs).members@ && final(fs).members@.last().feature_set_id@
                == feature_set_id@ && final(fs).members@.last().member_type == input_member_type(input.member_type@)
                && final(fs).members@.last().member_id == input.member_id && final(fs).members@.last().mode
                == input_mode(input.mode) && final(fs).id == old(fs).id && final(fs).feature_set_type
                == old(fs).feature_set_type,
        },
{
    let fs_type = fs.feature_set_type;
    let configurable = match fs_type {
        FeatureSetType::Default | FeatureSetType::Custom => true,
        _ => false,
    };
    if !configurable {
        return Err(type_message("Cannot modify members of '", fs_type, "' type feature set"));
    }
    let (member_type, mode) = member_kind_and_mode(&input);
    let mut i: usize = 0;
    while i < fs.members.len()
        invariant
            i <= fs.members@.len(),
            *fs == *old(fs),
            members_configurable(old(fs).feature_set_type),
            member_type == input_member_type(input.member_type@),
            forall|j: int| 0 <= j < i ==> !(#[trigger] fs.members@[j].member_type == member_type
                && fs.members@[j].member_id@ == input.member_id@),
        decreases fs.members@.len() - i,
    {
        if fs.members[i].member_type == member_type && str_eq(fs.members[i].member_id.as_str(), input.member_id.as_str()) {
            assert(has_member(old(fs).members@, member_type, input.member_id@));
            return Err(owned("Member already exists in this feature set"));
        }
        i = i + 1;
    }
    let is_set = match member_type {
        MemberType::FeatureSet => true,
        MemberType::Feature => false,
    };
    if is_set && str_eq(input.member_id.as_str(), feature_set_id) {
        return Err(owned("Cannot add a feature set to itself"));
    }
    if is_set {
        match target_type {
            Some(t) => match t {
                FeatureSetType::All | FeatureSetType::Default => {
                    return Err(
                        type_message(
                            "Cannot include '",
                            t,
                            "' type feature sets in other feature sets. Only 'custom' types can be included.",
                        ),
                    );
                },
                _ => {},
            },
            None => {},
        }
    }
    let member = FeatureSetMember {
        id: new_uuid_string(),
        feature_set_id: owned(feature_set_id),
        member_type,
        member_id: input.member_id,
        mode,
    };
    fs.members.push(member);
    fs.updated_at = now_epoch_secs();
    assert(fs.members@.drop_last() == old(fs).members@);
    Ok(())
}

/// Removes the members with a record ID from a user-defined set, keeping the
/// others in order. Built-in sets are refused.
pub fn remove_feature_set_member(fs: &mut FeatureSet, member_id: &str) -> (r: Result<(), String>)
    ensures
        old(fs).is_builtin ==> (r matches Err(m) && m@ == builtin_message() && *final(fs) == *old(fs)),
        !old(fs).is_builtin ==> r is Ok && final(fs).members@ == old(fs).members@.filter(
            |m: FeatureSetMember| m.id@ != member_id@,
        ) && final(fs).id == old(fs).id && final(fs).feature_set_type == old(fs).feature_set_type,
{
    if fs.is_builtin {
        return Err(owned("Cannot modify builtin feature set"));
    }
    let ghost pred = |m: FeatureSetMember| m.id@ != member_id@;
    let mut kept: Vec<FeatureSetMember> = Vec::new();
    let mut old_members: Vec<FeatureSetMember> = Vec::new();
    std::mem::swap(&mut old_members, &mut fs.members);
    let mut i: usize = 0;
    while i < old_members.len()
        invariant
            i <= old_members@.len(),
            pred == (|m: FeatureSetMember| m.id@ != member_id@),
            kept@ == old_members@.take(i as int).filter(pred),
        decreases old_members@.len() - i,
    {
        proof {
            reveal_with_fuel(Seq::filter, 1);
            assert(old_members@.take(i + 1).drop_last() =~= old_members@.take(i as int));
        }
        let m = &old_members[i];
        if !str_eq(m.id.as_str(), member_id) {
            kept.push(FeatureSetMember {
                id: m.id.clone(),
                feature_set_id: m.feature_set_id.clone(),
                member_type: m.member_type,
                member_id: m.member_id.clone(),
                mode: m.mode,
            });
        }
        i = i + 1;
    }
    assert(old_members@.take(old_members@.len() as int) =~= old_members@);
    fs.members = kept;
    fs.updated_at = now_epoch_secs();
    Ok(())
}

/// The members an input list describes for set `feature_set_id`, skipping
/// nested references to the set itself; the record IDs are left out.
pub open spec fn kept_inputs(inputs: Seq<AddMemberInput>, feature_set_id: Seq<char>) -> Seq<AddMemberInput> {
    inputs.filter(
        |m: AddMemberInput| !(m.member_type@ == "feature_set"@ && m.member_id@ == feature_set_id),
    )
}

/// Replaces the members of a default or custom set by the inputs, skipping
/// any that would make the set contain itself.
pub fn set_feature_set_members(fs: &mut FeatureSet, feature_set_id: &str, members: Vec<AddMemberInput>) -> (r:
    Result<(), String>)
    ensures
        !members_configurable(old(fs).feature_set_type) ==> (r matches Err(m) && m@
            == not_configurable_set_message(old(fs).feature_set_type) && *final(fs) == *old(fs)),
        members_configurable(old(fs).feature_set_type) ==> r is Ok && final(fs).members@.len()
            == kept_inputs(members@, feature_set_id@).len() && (forall|i: int|
            0 <= i < final(fs).members@.len() ==> {
                let m = #[trigger] final(fs).members@[i];
                let k = kept_inputs(members@, feature_set_id@)[i];
                &&& m.feature_set_id@ == feature_set_id@
                &&& m.member_type == input_member_type(k.member_type@)
                &&& m.member_id == k.member_id
                &&& m.mode == input_mode(k.mode)
            }) && final(fs).id == old(fs).id && final(fs).feature_set_type == old(fs).feature_set_type,
{
    let fs_type = fs.feature_set_type;
    let configurable = match fs_type {
        FeatureSetType::Default | FeatureSetType::Custom => true,
        _ => false,
    };
    if !configurable {
        return Err(
            type_message(
                "Cannot modify members of '",
                fs_type,
                "' type feature set. Only 'default' and 'custom' types are configurable.",
            ),
        );
    }
    let ghost keep = |m: AddMemberInput| !(m.member_type@ == "feature_set"@ && m.member_id@ == feature_set_id@);
    let mut new_members: Vec<FeatureSetMember> = Vec::new();
    let mut i: usize = 0;
    while i < members.len()
        invariant
            i <= members@.len(),
            keep == (|m: AddMemberInput| !(m.member_type@ == "feature_set"@ && m.member_id@ == feature_set_id@)),
            new_members@.len() == members@.take(i as int).filter(keep).len(),
            forall|j: int| 0 <= j < new_members@.len() ==> {
                let m = #[trigger] new_members@[j];
                let k = members@.take(i as int).filter(keep)[j];
                &&& m.feature_set_id@ == feature_set_id@
                &&& m.member_type == input_member_type(k.member_type@)
                &&& m.member_id == k.member_id
                &&& m.mode == input_mode(k.mode)
            },
        decreases members@.len() - i,
    {
        proof {
            reveal_with_fuel(Seq::filter, 1);
            assert(members@.take(i + 1).drop_last() =~= members@.take(i as int));
        }
        let input = &members[i];
        let self_ref = str_eq(input.member_type.as_str(), "feature_set") && str_eq(input.member_id.as_str(), feature_set_id);
        if !self_ref {
            let (member_type, mode) = member_kind_and_mode(input);
            let ghost before = new_members@;
            new_members.push(FeatureSetMember {
                id: new_uuid_string(),
                feature_set_id: owned(feature_set_id),
                member_type,
                member_id: input.member_id.clone(),
                mode,
            });
            proof {
                let f = members@.take(i + 1).filter(keep);
                assert(f == members@.take(i as int).filter(keep).push(members@[i as int]));
                assert forall|j: int| 0 <= j < new_members@.len() implies {
                    let m = #[trigger] new_members@[j];
                    let k = f[j];
                    &&& m.feature_set_id@ == feature_set_id@
                    &&& m.member_type == input_member_type(k.member_type@)
                    &&& m.member_id == k.member_id
                    &&& m.mode == input_mode(k.mode)
                } by {
                    if j < before.len() {
                        assert(new_members@[j] == before[j]);
                    }
                }
            }
        }
        i = i + 1;
    }
    assert(members@.take(members@.len() as int) =~= members@);
    fs.members = new_members;
    fs.updated_at = now_epoch_secs();
    Ok(())
}

/// A set whose members are replaced never contains itself as a nested set.
pub proof fn law_set_members_never_self(members: Seq<AddMemberInput>, feature_set_id: Seq<char>, i: int)
    requires
        0 <= i < kept_inputs(members, feature_set_id).len(),
    ensures
        !(input_member_type(kept_inputs(members, feature_set_id)[i].member_type@) == MemberType::FeatureSet
            && kept_inputs(members, feature_set_id)[i].member_id@ == feature_set_id),
{
    let keep = |m: AddMemberInput| !(m.member_type@ == "feature_set"@ && m.member_id@ == feature_set_id);
    broadcast use vstd::seq_lib::group_filter_ensures;
    assert(keep(kept_inputs(members, feature_set_id)[i]));
}

/// No two members share a kind and an ID.
pub open spec fn members_unique(members: Seq<FeatureSetMember>) -> bool {
    forall|i: int, j: int|
        0 <= i < j < members.len() ==> !(#[trigger] members[i].member_type == #[trigger] members[j].member_type
            && members[i].member_id@ == members[j].member_id@)
}

/// Adding a member that is not yet present keeps the members unique: the
/// duplicate check means a set never lists a member twice.
pub proof fn law_added_members_stay_unique(members: Seq<FeatureSetMember>, m: FeatureSetMember)
    requires
        members_unique(members),
        !has_member(members, m.member_type, m.member_id@),
    ensures
        members_unique(members.push(m)),
{
    let r = members.push(m);
    assert forall|i: int, j: int| 0 <= i < j < r.len() implies !(#[trigger] r[i].member_type
        == #[trigger] r[j].member_type && r[i].member_id@ == r[j].member_id@) by {
        if j == members.len() {
            assert(r[i] == members[i]);
            if r[i].member_type == m.member_type && r[i].member_id@ == m.member_id@ {
                assert(has_member(members, m.member_type, m.member_id@));
            }
        } else {
            assert(r[i] == members[i] && r[j] == members[j]);
        }
    }
}

} // verus!
