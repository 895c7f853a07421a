use mcpmux::registry::{
    default_version, AuthConfig, AuthType, QualityIndicators, RegistryServer, ServerCategory,
    ServerLinks, ServerRegistry,
};
use mcpmux::server::{InputDefinition, TransportConfig, TransportMetadata};

fn server(id: &str, name: &str, tags: &[&str]) -> RegistryServer {
    RegistryServer {
        id: id.to_string(),
        name: name.to_string(),
        alias: None,
        description: None,
        about: None,
        icon: None,
        schema_version: default_version(),
        version: None,
        category: None,
        categories: vec![],
        tags: tags.iter().map(|t| t.to_string()).collect(),
        publisher: None,
        quality: QualityIndicators::default(),
        links: ServerLinks::default(),
        platforms: vec![],
        inputs: vec![],
        transport: TransportConfig::Http {
            url: "https://x".to_string(),
            headers: vec![],
            metadata: TransportMetadata::default(),
        },
        auth: None,
        deprecated: false,
        deprecation_message: None,
        replaced_by: None,
    }
}

fn registry() -> ServerRegistry {
    let mut gh = server("io.github.github/github-mcp-server", "GitHub", &["Git", "code"]);
    gh.quality.official = true;
    gh.category = Some(ServerCategory("developer-tools".to_string()));
    let mut cf = server("com.cloudflare/docs-mcp", "Cloudflare Docs", &["docs"]);
    cf.description = Some("Search the DOCUMENTATION".to_string());
    cf.quality.featured = true;
    cf.categories = vec![ServerCategory("docs".to_string())];
    let mut reg = ServerRegistry::new();
    reg.servers.push((gh.id.clone(), gh));
    reg.servers.push((cf.id.clone(), cf));
    reg
}

#[test]
fn new_registry_is_empty_v1() {
    let r = ServerRegistry::new();
    assert_eq!(r.version, "1.0");
    assert!(r.servers.is_empty());
    assert_eq!(ServerRegistry::default().version, "1.0");
}

#[test]
fn lookup_and_ids() {
    let r = registry();
    assert_eq!(r.get("com.cloudflare/docs-mcp").unwrap().name, "Cloudflare Docs");
    assert!(r.get("nope").is_none());
    assert_eq!(r.server_ids(), vec!["io.github.github/github-mcp-server", "com.cloudflare/docs-mcp"]);
}

#[test]
fn filters() {
    let r = registry();
    let by_tag: Vec<&str> = r.by_tag("GIT").iter().map(|s| s.name.as_str()).collect();
    assert_eq!(by_tag, vec!["GitHub"]);
    let search: Vec<&str> = r.search("documentation").iter().map(|s| s.name.as_str()).collect();
    assert_eq!(search, vec!["Cloudflare Docs"]);
    let search: Vec<&str> = r.search("GIThub").iter().map(|s| s.name.as_str()).collect();
    assert_eq!(search, vec!["GitHub"]);
    assert_eq!(r.featured().len(), 1);
    assert_eq!(r.official()[0].name, "GitHub");
    assert_eq!(r.by_category(&ServerCategory("docs".to_string()))[0].name, "Cloudflare Docs");
    assert_eq!(r.by_category(&ServerCategory("developer-tools".to_string()))[0].name, "GitHub");
    assert!(r.by_category(&ServerCategory("other".to_string())).is_empty());
}

fn input(id: &str, required: bool, secret: bool) -> InputDefinition {
    InputDefinition {
        id: id.to_string(),
        label: id.to_string(),
        input_type: "text".to_string(),
        required,
        secret,
        description: None,
        default: None,
        placeholder: None,
        obtain_url: None,
        obtain_instructions: None,
    }
}

#[test]
fn server_requirements() {
    let mut s = server("a", "A", &[]);
    assert!(!s.requires_configuration());
    assert!(!s.requires_oauth());
    assert_eq!(s.effective_prefix(), "a");
    s.alias = Some("aa".to_string());
    assert_eq!(s.effective_prefix(), "aa");
    s.auth = Some(AuthConfig { auth_type: AuthType::NoAuth, instructions: None });
    assert!(!s.requires_configuration());
    s.auth = Some(AuthConfig { auth_type: AuthType::Oauth, instructions: None });
    assert!(s.requires_configuration());
    assert!(s.requires_oauth());
    s.auth = None;
    s.inputs = vec![input("X", true, false), input("Y", false, true), input("Z", true, true)];
    assert!(s.requires_configuration());
    let req: Vec<&str> = s.required_inputs().iter().map(|i| i.id.as_str()).collect();
    assert_eq!(req, vec!["X", "Z"]);
    let sec: Vec<&str> = s.secret_inputs().iter().map(|i| i.id.as_str()).collect();
    assert_eq!(sec, vec!["Y", "Z"]);
}

#[test]
fn test_stdio_server_with_inputs() {
    let mut server = server("io.github.github/github-mcp-server", "GitHub", &[]);
    server.description = Some("GitHub integration".to_string());
    server.inputs = vec![InputDefinition {
        id: "GITHUB_PERSONAL_ACCESS_TOKEN".to_string(),
        label: "GitHub Personal Access Token".to_string(),
        input_type: "text".to_string(),
        required: true,
        secret: true,
        description: None,
        default: None,
        placeholder: None,
        obtain_url: Some("https://github.com/settings/tokens".to_string()),
        obtain_instructions: None,
    }];
    server.transport = TransportConfig::Stdio {
        command: "docker".to_string(),
        args: ["run", "-i", "--rm", "-e", "GITHUB_PERSONAL_ACCESS_TOKEN", "ghcr.io/github/github-mcp-server"]
            .iter()
            .map(|s| s.to_string())
            .collect(),
        env: vec![(
            "GITHUB_PERSONAL_ACCESS_TOKEN".to_string(),
            "${input:GITHUB_PERSONAL_ACCESS_TOKEN}".to_string(),
        )],
        metadata: TransportMetadata::default(),
    };
    server.auth = Some(AuthConfig { auth_type: AuthType::ApiKey, instructions: Some("Get token from GitHub".to_string()) });

    assert!(server.requires_configuration());
    assert_eq!(server.required_inputs().len(), 1);
    assert_eq!(server.secret_inputs().len(), 1);
}
