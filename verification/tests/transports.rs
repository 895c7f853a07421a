use mcpmux::transports::{handler_client_name, parse_command, ConnectionStatus};

#[test]
fn transports_test_connection_status() {
    let status = ConnectionStatus::Connected;
    assert_eq!(status, ConnectionStatus::Connected);
}

#[test]
fn test_client_handler() {
    assert!(handler_client_name("test-server").contains("mcpmux"));
    assert_eq!(handler_client_name("test-server"), "mcpmux-test-server");
}

#[test]
fn parse_command_keeps_separate_args() {
    let (exe, args) = parse_command("node", &["server.js".to_string()]).unwrap();
    assert_eq!(exe, "node");
    assert_eq!(args, vec!["server.js"]);
}

#[test]
fn parse_command_splits_embedded_args() {
    let (exe, args) = parse_command("docker run -i --rm image", &[]).unwrap();
    assert_eq!(exe, "docker");
    assert_eq!(args, vec!["run", "-i", "--rm", "image"]);
    let (exe, args) = parse_command("npx -y \"@some/server x\"", &[]).unwrap();
    assert_eq!(exe, "npx");
    assert_eq!(args, vec!["-y", "@some/server x"]);
    let (exe, args) = parse_command("uvx", &[]).unwrap();
    assert_eq!(exe, "uvx");
    assert!(args.is_empty());
}

#[test]
fn parse_command_errors() {
    assert_eq!(
        parse_command("echo \"unterminated", &[]).unwrap_err(),
        "Failed to parse command string - check for unmatched quotes"
    );
    assert_eq!(parse_command("   ", &[]).unwrap_err(), "Empty command after parsing");
}
