use mcpmux::server::{
    default_input_type, AuthConfig, Capabilities, HostingType, ServerDefinition, ServerIcon,
    ServerSource, TransportConfig, TransportMetadata,
};

#[test]
fn icons_resolve_per_theme() {
    let single = ServerIcon::Single("🚀".to_string());
    assert_eq!(single.resolve(true), "🚀");
    let themed = ServerIcon::Themed { light: "l.png".to_string(), dark: "d.png".to_string() };
    assert_eq!(themed.resolve(true), "d.png");
    assert_eq!(themed.resolve(false), "l.png");
}

fn definition(auth: Option<AuthConfig>) -> ServerDefinition {
    ServerDefinition {
        id: "x".to_string(),
        name: "X".to_string(),
        description: None,
        alias: None,
        auth,
        icon: None,
        transport: TransportConfig::Http { url: "https://x".to_string(), headers: vec![], metadata: TransportMetadata::default() },
        categories: vec![],
        publisher: None,
        source: ServerSource::default(),
        badges: vec![],
        hosting_type: HostingType::default(),
        license: None,
        license_url: None,
        installation: None,
        capabilities: Some(Capabilities::default()),
        sponsored: None,
        media: None,
        changelog_url: None,
    }
}

#[test]
fn oauth_requirement_and_defaults() {
    assert!(definition(Some(AuthConfig::Oauth)).requires_oauth());
    assert!(!definition(Some(AuthConfig::ApiKey { instructions: None })).requires_oauth());
    assert!(!definition(None).requires_oauth());
    assert!(matches!(ServerSource::default(), ServerSource::Bundled));
    assert_eq!(HostingType::default(), HostingType::Local);
    assert_eq!(default_input_type(), "text");
    let d = definition(None);
    assert!(d.transport.metadata().inputs.is_empty());
    assert!(!d.capabilities.unwrap().tools);
}
