use mcpmux::config::{UserServerEntry, UserServerMetadata, UserSpaceConfig};
use mcpmux::server::{AuthConfig, InputDefinition, TransportConfig};

fn entry() -> UserServerEntry {
    UserServerEntry {
        command: None,
        args: None,
        env: None,
        url: None,
        headers: None,
        name: None,
        description: None,
        icon: None,
        alias: None,
        auth: None,
        metadata: None,
    }
}

fn pairs(items: &[(&str, &str)]) -> Vec<(String, String)> {
    items.iter().map(|(k, v)| (k.to_string(), v.to_string())).collect()
}

fn lookup<'a>(items: &'a [(String, String)], key: &str) -> Option<&'a String> {
    items.iter().find(|(k, _)| k == key).map(|(_, v)| v)
}

#[test]
fn test_auto_discover_from_env() {
    let entry = UserServerEntry {
        command: Some("node".to_string()),
        args: Some(vec!["server.js".to_string()]),
        env: Some(pairs(&[("GITHUB_TOKEN", "${input:GITHUB_TOKEN}")])),
        ..entry()
    };

    let (_, inputs) = entry.resolve_transport_and_inputs();

    assert_eq!(inputs.len(), 1);
    assert_eq!(inputs[0].id, "GITHUB_TOKEN");
    assert_eq!(inputs[0].input_type, "password");
    assert!(inputs[0].required);
    assert!(inputs[0].secret);
}

#[test]
fn test_auto_discover_from_command() {
    let entry = UserServerEntry { command: Some("${input:BINARY_PATH}".to_string()), ..entry() };

    let (_, inputs) = entry.resolve_transport_and_inputs();

    assert_eq!(inputs.len(), 1);
    assert_eq!(inputs[0].id, "BINARY_PATH");
}

#[test]
fn test_auto_discover_from_args() {
    let entry = UserServerEntry {
        command: Some("gh".to_string()),
        args: Some(vec![
            "api".to_string(),
            "--token".to_string(),
            "${input:GITHUB_TOKEN}".to_string(),
        ]),
        ..entry()
    };

    let (_, inputs) = entry.resolve_transport_and_inputs();

    assert_eq!(inputs.len(), 1);
    assert_eq!(inputs[0].id, "GITHUB_TOKEN");
}

#[test]
fn test_auto_discover_multiple_placeholders() {
    let entry = UserServerEntry {
        command: Some("${input:CLI_PATH}".to_string()),
        args: Some(vec!["--token".to_string(), "${input:API_TOKEN}".to_string()]),
        env: Some(pairs(&[("API_KEY", "${input:API_KEY}")])),
        ..entry()
    };

    let (_, inputs) = entry.resolve_transport_and_inputs();

    assert_eq!(inputs.len(), 3);

    let input_ids: std::collections::HashSet<String> =
        inputs.iter().map(|i| i.id.clone()).collect();

    assert!(input_ids.contains("CLI_PATH"));
    assert!(input_ids.contains("API_TOKEN"));
    assert!(input_ids.contains("API_KEY"));
}

#[test]
fn test_auto_discover_deduplication() {
    let entry = UserServerEntry {
        command: Some("node".to_string()),
        args: Some(vec!["--token".to_string(), "${input:TOKEN}".to_string()]),
        env: Some(pairs(&[
            ("TOKEN", "${input:TOKEN}"),
            ("BACKUP_TOKEN", "${input:TOKEN}"),
        ])),
        ..entry()
    };

    let (_, inputs) = entry.resolve_transport_and_inputs();

    assert_eq!(inputs.len(), 1);
    assert_eq!(inputs[0].id, "TOKEN");
}

fn input(id: &str, label: &str, ty: &str, description: Option<&str>, default: Option<&str>) -> InputDefinition {
    InputDefinition {
        id: id.to_string(),
        label: label.to_string(),
        input_type: ty.to_string(),
        required: false,
        secret: false,
        description: description.map(|s| s.to_string()),
        default: default.map(|s| s.to_string()),
        placeholder: None,
        obtain_url: None,
        obtain_instructions: None,
    }
}

#[test]
fn test_explicit_inputs_take_precedence() {
    let entry = UserServerEntry {
        command: Some("node".to_string()),
        env: Some(pairs(&[("API_KEY", "${input:API_KEY}")])),
        metadata: Some(UserServerMetadata {
            inputs: Some(vec![input(
                "API_KEY",
                "My Custom Label",
                "text",
                Some("Custom description"),
                None,
            )]),
            publisher: None,
        }),
        ..entry()
    };

    let (_, inputs) = entry.resolve_transport_and_inputs();

    assert_eq!(inputs.len(), 1);
    assert_eq!(inputs[0].id, "API_KEY");
    assert_eq!(inputs[0].label, "My Custom Label");
    assert_eq!(inputs[0].input_type, "text");
    assert!(!inputs[0].required);
    assert!(!inputs[0].secret);
}

#[test]
fn test_user_space_config_parsing() {
    let config = UserSpaceConfig {
        servers: vec![(
            "test-server".to_string(),
            UserServerEntry {
                command: Some("node".to_string()),
                args: Some(vec!["server.js".to_string()]),
                env: Some(pairs(&[("API_KEY", "${input:API_KEY}")])),
                ..entry()
            },
        )],
    };

    assert_eq!(config.servers.len(), 1);
    assert!(config.servers.iter().any(|(id, _)| id == "test-server"));

    let definitions = config.to_server_definitions("test-space", "/test/path.json");

    assert_eq!(definitions.len(), 1);
    assert_eq!(definitions[0].id, "test-server");

    let inputs = &definitions[0].transport.metadata().inputs;
    assert_eq!(inputs.len(), 1);
    assert_eq!(inputs[0].id, "API_KEY");
}

#[test]
fn test_normalize_server_id() {
    assert_eq!(UserServerEntry::normalize_server_id("GitHub"), "github");
    assert_eq!(UserServerEntry::normalize_server_id("my-server.v2"), "my-server.v2");
    assert_eq!(UserServerEntry::normalize_server_id("My Server"), "myserver");
    assert_eq!(UserServerEntry::normalize_server_id("my_server"), "myserver");
    assert_eq!(
        UserServerEntry::normalize_server_id("GitHub Copilot v2"),
        "githubcopilotv2"
    );
}

#[test]
fn test_normalize_alias() {
    assert_eq!(UserServerEntry::normalize_alias("my_alias"), "my-alias");
    assert_eq!(UserServerEntry::normalize_alias("MyAlias"), "myalias");
    assert_eq!(UserServerEntry::normalize_alias("a_b_c"), "a-b-c");
}

#[test]
fn test_http_transport_detection() {
    let entry = UserServerEntry {
        url: Some("https://api.example.com/mcp".to_string()),
        headers: Some(pairs(&[("Authorization", "Bearer token")])),
        ..entry()
    };

    let (transport, _) = entry.resolve_transport_and_inputs();

    match transport {
        TransportConfig::Http { url, headers, .. } => {
            assert_eq!(url, "https://api.example.com/mcp");
            assert_eq!(lookup(&headers, "Authorization"), Some(&"Bearer token".to_string()));
        }
        _ => panic!("Expected HTTP transport"),
    }
}

#[test]
fn test_stdio_transport_detection() {
    let entry = UserServerEntry {
        command: Some("npx".to_string()),
        args: Some(vec!["mcp-server".to_string()]),
        env: Some(pairs(&[("NODE_ENV", "production")])),
        ..entry()
    };

    let (transport, _) = entry.resolve_transport_and_inputs();

    match transport {
        TransportConfig::Stdio { command, args, env, .. } => {
            assert_eq!(command, "npx");
            assert_eq!(args, vec!["mcp-server"]);
            assert_eq!(lookup(&env, "NODE_ENV"), Some(&"production".to_string()));
        }
        _ => panic!("Expected Stdio transport"),
    }
}

#[test]
fn test_auto_auth_config_required_secret() {
    let entry = UserServerEntry {
        command: Some("node".to_string()),
        env: Some(pairs(&[("API_KEY", "${input:API_KEY}")])),
        ..entry()
    };

    let def = entry.to_server_definition("test", "space", "/test".to_string());

    assert!(matches!(def.auth, Some(AuthConfig::ApiKey { .. })));
}

#[test]
fn test_explicit_auth_not_overridden() {
    let entry = UserServerEntry {
        command: Some("node".to_string()),
        env: Some(pairs(&[("TOKEN", "${input:TOKEN}")])),
        auth: Some(AuthConfig::Oauth),
        ..entry()
    };

    let def = entry.to_server_definition("test", "space", "/test".to_string());

    assert!(matches!(def.auth, Some(AuthConfig::Oauth)));
}

#[test]
fn test_input_default_value_parsed_from_json() {
    let mut log_level = input("LOG_LEVEL", "Log Level", "text", None, Some("info"));
    log_level.required = false;
    let config = UserSpaceConfig {
        servers: vec![(
            "test-server".to_string(),
            UserServerEntry {
                command: Some("node".to_string()),
                args: Some(vec!["server.js".to_string()]),
                env: Some(pairs(&[("LOG_LEVEL", "${input:LOG_LEVEL}")])),
                metadata: Some(UserServerMetadata { inputs: Some(vec![log_level]), publisher: None }),
                ..entry()
            },
        )],
    };
    let definitions = config.to_server_definitions("test-space", "/test/path.json");

    assert_eq!(definitions.len(), 1);
    let inputs = &definitions[0].transport.metadata().inputs;
    assert_eq!(inputs.len(), 1);
    assert_eq!(inputs[0].id, "LOG_LEVEL");
    assert_eq!(inputs[0].default, Some("info".to_string()));
}

#[test]
fn test_explicit_input_with_default_takes_precedence_over_autodiscovery() {
    let entry = UserServerEntry {
        command: Some("node".to_string()),
        env: Some(pairs(&[("LOG_LEVEL", "${input:LOG_LEVEL}")])),
        metadata: Some(UserServerMetadata {
            inputs: Some(vec![input("LOG_LEVEL", "Log Level", "text", None, Some("info"))]),
            publisher: None,
        }),
        ..entry()
    };

    let (_, inputs) = entry.resolve_transport_and_inputs();

    assert_eq!(inputs.len(), 1);
    assert_eq!(inputs[0].id, "LOG_LEVEL");
    assert_eq!(inputs[0].default, Some("info".to_string()));
    assert_eq!(inputs[0].input_type, "text");
    assert!(!inputs[0].required);
    assert!(!inputs[0].secret);
}

#[test]
fn test_auto_discovered_inputs_have_no_default() {
    let entry = UserServerEntry {
        command: Some("node".to_string()),
        env: Some(pairs(&[("API_KEY", "${input:API_KEY}")])),
        ..entry()
    };

    let (_, inputs) = entry.resolve_transport_and_inputs();

    assert_eq!(inputs.len(), 1);
    assert_eq!(inputs[0].id, "API_KEY");
    assert_eq!(inputs[0].default, None);
}

#[test]
fn alias_generated_only_when_id_changes_beyond_case() {
    let e = UserServerEntry { command: Some("node".to_string()), ..entry() };
    let d = e.to_server_definition("GitHub Copilot", "s", "/f".to_string());
    assert_eq!(d.id, "githubcopilot");
    assert_eq!(d.alias, Some("githubcopilot".to_string()));
    assert_eq!(d.name, "GitHub Copilot");
    let d = e.to_server_definition("GitHub", "s", "/f".to_string());
    assert_eq!(d.id, "github");
    assert_eq!(d.alias, None);
    let e = UserServerEntry {
        command: Some("node".to_string()),
        alias: Some("My_Alias".to_string()),
        ..entry()
    };
    let d = e.to_server_definition("x", "s", "/f".to_string());
    assert_eq!(d.alias, Some("my-alias".to_string()));
}

#[test]
fn auth_inferred_from_optional_secret_or_none() {
    let mut optional = input("TOKEN", "Token", "password", None, None);
    optional.secret = true;
    let e = UserServerEntry {
        command: Some("node".to_string()),
        metadata: Some(UserServerMetadata { inputs: Some(vec![optional]), publisher: None }),
        ..entry()
    };
    let d = e.to_server_definition("x", "s", "/f".to_string());
    assert!(matches!(d.auth, Some(AuthConfig::OptionalApiKey { instructions: None })));
    let e = UserServerEntry { command: Some("node".to_string()), ..entry() };
    let d = e.to_server_definition("x", "s", "/f".to_string());
    assert!(matches!(d.auth, Some(AuthConfig::NoAuth)));
}

#[test]
fn later_explicit_definition_of_an_id_wins() {
    let e = UserServerEntry {
        command: Some("node".to_string()),
        metadata: Some(UserServerMetadata {
            inputs: Some(vec![
                input("A", "first", "text", None, None),
                input("A", "second", "text", None, None),
            ]),
            publisher: None,
        }),
        ..entry()
    };
    let (_, inputs) = e.resolve_transport_and_inputs();
    assert_eq!(inputs.len(), 1);
    assert_eq!(inputs[0].label, "second");
}

#[test]
fn empty_entry_is_an_empty_stdio_server() {
    let e = UserServerEntry { env: Some(pairs(&[("A", "b")])), ..entry() };
    let (t, inputs) = e.resolve_transport_and_inputs();
    match t {
        TransportConfig::Stdio { command, args, env, .. } => {
            assert_eq!(command, "");
            assert!(args.is_empty());
            assert!(env.is_empty());
        }
        _ => panic!("expected stdio"),
    }
    assert!(inputs.is_empty());
}

#[test]
fn placeholders_must_be_upper_case() {
    let e = UserServerEntry {
        command: Some("${input:lower} ${input:_OK1}".to_string()),
        ..entry()
    };
    let (_, inputs) = e.resolve_transport_and_inputs();
    assert_eq!(inputs.len(), 1);
    assert_eq!(inputs[0].id, "_OK1");
}

#[test]
fn config_entries_are_keyed_by_id() {
    let config = UserSpaceConfig::from_pairs(vec![
        ("a".to_string(), UserServerEntry { command: Some("one".to_string()), ..entry() }),
        ("b".to_string(), UserServerEntry { command: Some("two".to_string()), ..entry() }),
        ("a".to_string(), UserServerEntry { command: Some("three".to_string()), ..entry() }),
    ]);
    assert_eq!(config.servers.len(), 2);
    assert_eq!(config.servers[0].0, "a");
    assert_eq!(config.servers[0].1.command, Some("three".to_string()));
    assert_eq!(config.servers[1].0, "b");
}

#[test]
fn ascii_server_ids_normalize_by_letters_and_digits() {
    assert_eq!(UserServerEntry::normalize_server_id("GitHub"), "github");
    assert_eq!(UserServerEntry::normalize_server_id("my_server v2.0"), "myserverv2.0");
}
