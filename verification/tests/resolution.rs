use mcpmux::feature::{FeatureType, ServerFeature};
use mcpmux::feature_set::{FeatureSet, FeatureSetMember, FeatureSetType, MemberMode, MemberType};
use mcpmux::resolution::{apply_mode_to_set, resolve_feature_sets, with_server_prefixes};

fn feature(id: &str, kind: FeatureType) -> ServerFeature {
    let mut f = ServerFeature::new("space", "srv", kind, id);
    f.id = id.to_string();
    f
}

fn member(set: &str, t: MemberType, id: &str, mode: MemberMode) -> FeatureSetMember {
    FeatureSetMember {
        id: format!("{}-{}", set, id),
        feature_set_id: set.to_string(),
        member_type: t,
        member_id: id.to_string(),
        mode,
    }
}

fn fs(id: &str, t: FeatureSetType, members: Vec<FeatureSetMember>) -> FeatureSet {
    FeatureSet {
        id: id.to_string(),
        name: id.to_string(),
        description: None,
        icon: None,
        space_id: Some("space".to_string()),
        feature_set_type: t,
        server_id: None,
        is_builtin: false,
        is_deleted: false,
        created_at: 0,
        updated_at: 0,
        members,
    }
}

fn ids(v: &[ServerFeature]) -> Vec<String> {
    v.iter().map(|f| f.id.clone()).collect()
}

#[test]
fn all_set_grants_every_usable_feature() {
    let mut disabled = feature("t3", FeatureType::Tool);
    disabled.disabled = true;
    let feats = vec![feature("t1", FeatureType::Tool), feature("p1", FeatureType::Prompt), disabled];
    let sets = vec![fs("all", FeatureSetType::All, vec![])];
    let r = resolve_feature_sets(&feats, &sets, &vec!["all".to_string()], None);
    assert_eq!(ids(&r), vec!["t1", "p1"]);
    let r = resolve_feature_sets(&feats, &sets, &vec!["all".to_string()], Some(FeatureType::Prompt));
    assert_eq!(ids(&r), vec!["p1"]);
}

#[test]
fn exclusion_wins_over_inclusion() {
    let feats = vec![feature("tool-1", FeatureType::Tool), feature("tool-2", FeatureType::Tool)];
    let sets = vec![
        fs("a", FeatureSetType::Custom, vec![
            member("a", MemberType::Feature, "tool-1", MemberMode::Include),
            member("a", MemberType::Feature, "tool-2", MemberMode::Include),
        ]),
        fs("b", FeatureSetType::Custom, vec![member("b", MemberType::Feature, "tool-2", MemberMode::Exclude)]),
    ];
    let r = resolve_feature_sets(&feats, &sets, &vec!["a".to_string(), "b".to_string()], None);
    assert_eq!(ids(&r), vec!["tool-1"]);
}

#[test]
fn nested_sets_and_no_grants() {
    let feats = vec![feature("x", FeatureType::Tool), feature("y", FeatureType::Resource)];
    let sets = vec![
        fs("outer", FeatureSetType::Custom, vec![member("outer", MemberType::FeatureSet, "inner", MemberMode::Include)]),
        fs("inner", FeatureSetType::Custom, vec![member("inner", MemberType::Feature, "y", MemberMode::Include)]),
    ];
    let r = resolve_feature_sets(&feats, &sets, &vec!["outer".to_string()], None);
    assert_eq!(ids(&r), vec!["y"]);
    let r = resolve_feature_sets(&feats, &sets, &vec![], None);
    assert!(r.is_empty());
    let r = resolve_feature_sets(&feats, &sets, &vec!["missing".to_string()], None);
    assert!(r.is_empty());
}

#[test]
fn mode_routes_ids() {
    let mut allowed = vec!["a".to_string()];
    let mut excluded = vec![];
    apply_mode_to_set(MemberMode::Exclude, vec!["b".to_string()], &mut allowed, &mut excluded);
    apply_mode_to_set(MemberMode::Include, vec!["c".to_string()], &mut allowed, &mut excluded);
    assert_eq!(allowed, vec!["a", "c"]);
    assert_eq!(excluded, vec!["b"]);
}

#[test]
fn resolved_features_carry_server_prefix() {
    let feats = vec![feature("t1", FeatureType::Tool), feature("p1", FeatureType::Prompt)];
    let out = with_server_prefixes(&feats, &vec!["gh".to_string(), "gh2".to_string()]);
    assert_eq!(out.len(), 2);
    assert_eq!(out[0].server_alias, Some("gh".to_string()));
    assert_eq!(out[1].server_alias, Some("gh2".to_string()));
    assert_eq!(out[0].id, "t1");
    assert_eq!(out[1].feature_name, feats[1].feature_name);
}
