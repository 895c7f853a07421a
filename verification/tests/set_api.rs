use mcpmux::feature_set::{FeatureSet, FeatureSetMember, FeatureSetType, MemberMode, MemberType};
use mcpmux::set_api::{
    add_feature_set_member, new_custom_feature_set, remove_feature_set_member,
    set_feature_set_members, update_feature_set, AddMemberInput, CreateFeatureSetInput,
    FeatureSetResponse, UpdateFeatureSetInput,
};

fn set(t: FeatureSetType, builtin: bool) -> FeatureSet {
    FeatureSet {
        id: "fs1".to_string(),
        name: "Set".to_string(),
        description: None,
        icon: None,
        space_id: Some("space".to_string()),
        feature_set_type: t,
        server_id: None,
        is_builtin: builtin,
        is_deleted: false,
        created_at: 0,
        updated_at: 0,
        members: vec![],
    }
}

fn add(t: &str, id: &str, mode: Option<&str>) -> AddMemberInput {
    AddMemberInput { member_type: t.to_string(), member_id: id.to_string(), mode: mode.map(|m| m.to_string()) }
}

#[test]
fn create_custom_set() {
    let fs = new_custom_feature_set(CreateFeatureSetInput {
        name: "My Tools".to_string(),
        space_id: "space".to_string(),
        description: Some("d".to_string()),
        icon: None,
    });
    assert_eq!(fs.name, "My Tools");
    assert_eq!(fs.feature_set_type, FeatureSetType::Custom);
    assert!(!fs.is_builtin);
    assert!(fs.members.is_empty());
    let r = FeatureSetResponse::from_set(fs);
    assert_eq!(r.feature_set_type, "custom");
}

#[test]
fn add_member_rules() {
    let mut fs = set(FeatureSetType::Custom, false);
    add_feature_set_member(&mut fs, "fs1", add("feature", "feature-uuid-1", None), None).unwrap();
    assert_eq!(fs.members.len(), 1);
    assert_eq!(fs.members[0].member_type, MemberType::Feature);
    assert_eq!(fs.members[0].mode, MemberMode::Include);
    assert_eq!(
        add_feature_set_member(&mut fs, "fs1", add("feature", "feature-uuid-1", Some("exclude")), None).unwrap_err(),
        "Member already exists in this feature set"
    );
    add_feature_set_member(&mut fs, "fs1", add("feature", "dangerous-tool", Some("exclude")), None).unwrap();
    assert_eq!(fs.members[1].mode, MemberMode::Exclude);
    assert_eq!(
        add_feature_set_member(&mut fs, "fs1", add("feature_set", "fs1", None), None).unwrap_err(),
        "Cannot add a feature set to itself"
    );
    assert_eq!(
        add_feature_set_member(&mut fs, "fs1", add("feature_set", "fs_all", None), Some(FeatureSetType::All))
            .unwrap_err(),
        "Cannot include 'all' type feature sets in other feature sets. Only 'custom' types can be included."
    );
    add_feature_set_member(&mut fs, "fs1", add("feature_set", "fs2", None), Some(FeatureSetType::Custom)).unwrap();
    assert_eq!(fs.members.len(), 3);
    let mut all = set(FeatureSetType::All, true);
    assert_eq!(
        add_feature_set_member(&mut all, "fs1", add("feature", "x", None), None).unwrap_err(),
        "Cannot modify members of 'all' type feature set"
    );
}

#[test]
fn remove_and_update_rules() {
    let mut fs = set(FeatureSetType::Custom, false);
    fs.members = vec![
        FeatureSetMember { id: "m1".to_string(), feature_set_id: "fs1".to_string(), member_type: MemberType::Feature, member_id: "feature-a".to_string(), mode: MemberMode::Include },
        FeatureSetMember { id: "m2".to_string(), feature_set_id: "fs1".to_string(), member_type: MemberType::Feature, member_id: "feature-b".to_string(), mode: MemberMode::Include },
    ];
    remove_feature_set_member(&mut fs, "m1").unwrap();
    assert_eq!(fs.members.len(), 1);
    assert_eq!(fs.members[0].member_id, "feature-b");
    update_feature_set(&mut fs, UpdateFeatureSetInput { name: Some("Updated Name".to_string()), description: Some("New description".to_string()), icon: None }).unwrap();
    assert_eq!(fs.name, "Updated Name");
    assert_eq!(fs.description, Some("New description".to_string()));
    let mut builtin = set(FeatureSetType::Default, true);
    assert_eq!(remove_feature_set_member(&mut builtin, "m").unwrap_err(), "Cannot modify builtin feature set");
    assert_eq!(
        update_feature_set(&mut builtin, UpdateFeatureSetInput { name: None, description: None, icon: None }).unwrap_err(),
        "Cannot modify builtin feature set"
    );
}

#[test]
fn replace_members_skips_self() {
    let mut fs = set(FeatureSetType::Default, true);
    set_feature_set_members(
        &mut fs,
        "fs1",
        vec![add("feature", "tool-1", None), add("feature_set", "fs1", None), add("feature_set", "fs3", Some("exclude"))],
    )
    .unwrap();
    assert_eq!(fs.members.len(), 2);
    assert_eq!(fs.members[1].member_type, MemberType::FeatureSet);
    assert_eq!(fs.members[1].mode, MemberMode::Exclude);
    let mut server_all = set(FeatureSetType::ServerAll, true);
    assert_eq!(
        set_feature_set_members(&mut server_all, "fs1", vec![]).unwrap_err(),
        "Cannot modify members of 'server-all' type feature set. Only 'default' and 'custom' types are configurable."
    );
}
