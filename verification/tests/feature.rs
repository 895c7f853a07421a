use mcpmux::feature::{FeatureType, ServerFeature};
use mcpmux::storage;

#[test]
fn test_new_tool() {
    let feature = ServerFeature::tool(
        "space_default",
        "io.github.github/github-mcp-server",
        "create_issue",
    )
    .with_description("Create a new GitHub issue");

    assert_eq!(feature.feature_type, FeatureType::Tool);
    assert_eq!(feature.feature_name, "create_issue");
    assert!(feature.is_available);
}

#[test]
fn test_unique_key() {
    let feature = ServerFeature::tool("space_1", "com.cloudflare/docs-mcp", "search_docs");

    assert_eq!(
        feature.unique_key(),
        "space_1:com.cloudflare/docs-mcp:tool:search_docs"
    );
}

#[test]
fn feature_type_parse_ignores_case() {
    assert_eq!(FeatureType::parse("TOOL"), Some(FeatureType::Tool));
    assert_eq!(FeatureType::parse("Prompt"), Some(FeatureType::Prompt));
    assert_eq!(FeatureType::parse("resource"), Some(FeatureType::Resource));
    assert_eq!(FeatureType::parse("tools"), None);
    for t in [FeatureType::Tool, FeatureType::Prompt, FeatureType::Resource] {
        assert_eq!(FeatureType::parse(t.as_str()), Some(t));
    }
}

#[test]
fn stored_feature_type_is_exact() {
    assert_eq!(storage::FeatureType::parse("tool"), Some(storage::FeatureType::Tool));
    assert_eq!(storage::FeatureType::parse("Tool"), None);
    for t in [
        storage::FeatureType::Tool,
        storage::FeatureType::Prompt,
        storage::FeatureType::Resource,
    ] {
        assert_eq!(storage::FeatureType::parse(t.as_str()), Some(t));
    }
}

#[test]
fn stored_feature_records() {
    let f = storage::ServerFeature::new_prompt("space1", "server1", "greet")
        .with_display_name("Greet")
        .with_description("Says hello")
        .with_raw_json("{\"name\":\"greet\"}".to_string());
    assert_eq!(f.feature_type, storage::FeatureType::Prompt);
    assert_eq!(f.feature_name, "greet");
    assert_eq!(f.display_name, Some("Greet".to_string()));
    assert_eq!(f.description, Some("Says hello".to_string()));
    assert!(f.is_available && !f.disabled);
    assert_eq!(f.id.len(), 36);
    assert_eq!(storage::ServerFeature::new_tool("a", "b", "c").feature_type, storage::FeatureType::Tool);
    assert_eq!(storage::ServerFeature::new_resource("a", "b", "c").feature_type, storage::FeatureType::Resource);
}

#[test]
fn qualified_names_and_availability() {
    let mut f = ServerFeature::tool("space_1", "com.cloudflare/docs-mcp", "search_docs");
    assert_eq!(f.prefix(), "com.cloudflare/docs-mcp");
    assert_eq!(f.qualified_name(), "com.cloudflare/docs-mcp_search_docs");
    f = f.with_server_alias(Some("cfdocs".to_string()));
    assert_eq!(f.qualified_name(), "cfdocs_search_docs");
    assert_eq!(f.qualified_name_with_server_id(), "com.cloudflare/docs-mcp_search_docs");
    let r = ServerFeature::resource("s", "srv", "instant-domains://tld-categories");
    assert_eq!(r.qualified_name(), "instant-domains://tld-categories");
    assert_eq!(r.qualified_name_with_server_id(), "instant-domains://tld-categories");
    f.mark_unavailable();
    assert!(!f.is_available);
    f.mark_seen();
    assert!(f.is_available);
    assert!(f.last_seen_at >= f.discovered_at);
    let p = ServerFeature::prompt("s", "srv", "greet").with_display_name("Greet");
    assert_eq!(p.display_name, Some("Greet".to_string()));
    assert_eq!(p.feature_type, FeatureType::Prompt);
}
