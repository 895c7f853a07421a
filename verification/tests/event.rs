use mcpmux::event::{ConnectionStatus, DiscoveredCapabilities, DomainEvent, DomainEventEnvelope};
use mcpmux::feature::ServerFeature;
use mcpmux::ui::{map_domain_event_to_ui, PayloadValue};
use uuid::Uuid;

#[test]
fn event_test_connection_status() {
    assert!(ConnectionStatus::Connected.is_connected());
    assert!(ConnectionStatus::Refreshing.is_connected());
    assert!(!ConnectionStatus::Disconnected.is_connected());

    assert!(ConnectionStatus::Connected.is_terminal());
    assert!(!ConnectionStatus::Connecting.is_terminal());
}

#[test]
fn test_affects_mcp_capabilities() {
    let grant = DomainEvent::GrantIssued {
        client_id: "test".to_string(),
        space_id: Uuid::new_v4().as_u128(),
        feature_set_id: "fs1".to_string(),
    };
    assert!(grant.affects_mcp_capabilities());

    let space = DomainEvent::SpaceCreated {
        space_id: Uuid::new_v4().as_u128(),
        name: "Test".to_string(),
        icon: None,
    };
    assert!(!space.affects_mcp_capabilities());
}

#[test]
fn test_space_id_extraction() {
    let event = DomainEvent::ServerInstalled {
        space_id: Uuid::parse_str("550e8400-e29b-41d4-a716-446655440000").unwrap().as_u128(),
        server_id: "test-server".to_string(),
        server_name: "Test Server".to_string(),
    };

    assert_eq!(
        event.space_id(),
        Some(Uuid::parse_str("550e8400-e29b-41d4-a716-446655440000").unwrap().as_u128())
    );
}

#[test]
fn test_event_envelope() {
    let event = DomainEvent::GatewayStarted {
        url: "http://localhost:3100".to_string(),
        port: 3100,
    };

    let envelope = DomainEventEnvelope::new(event);
    assert!(envelope.correlation_id.is_none());

    let with_correlation = envelope.with_correlation_id(Uuid::new_v4().as_u128());
    assert!(with_correlation.correlation_id.is_some());
}

#[test]
fn status_names_round_trip() {
    let all = [
        ConnectionStatus::Connected,
        ConnectionStatus::Disconnected,
        ConnectionStatus::Error,
        ConnectionStatus::OAuthRequired,
        ConnectionStatus::Connecting,
        ConnectionStatus::Refreshing,
        ConnectionStatus::Authenticating,
    ];
    for s in all {
        assert_eq!(ConnectionStatus::parse(s.as_str()), s);
    }
    assert_eq!(ConnectionStatus::parse("bogus"), ConnectionStatus::Disconnected);
    assert_eq!(ConnectionStatus::OAuthRequired.as_str(), "oauth_required");
    assert!(ConnectionStatus::Authenticating.needs_auth());
    assert!(ConnectionStatus::Error.is_error());
    assert_eq!(ConnectionStatus::default(), ConnectionStatus::Disconnected);
}

#[test]
fn scoping_of_events() {
    let e = DomainEvent::GrantRevoked {
        client_id: "c".to_string(),
        space_id: 7,
        feature_set_id: "fs".to_string(),
    };
    assert_eq!(e.event_type_name(), "grant_revoked");
    assert_eq!(e.space_id(), Some(7));
    assert_eq!(e.client_id(), Some("c"));
    assert_eq!(e.feature_set_id(), Some("fs"));
    assert_eq!(e.server_id(), None);
    assert!(!e.is_ui_only());
    let a = DomainEvent::SpaceActivated { from_space_id: Some(1), to_space_id: 2, to_space_name: "B".to_string() };
    assert_eq!(a.space_id(), Some(2));
    assert!(a.is_ui_only());
    assert_eq!(DomainEvent::GatewayStopped.space_id(), None);
    let s = DomainEvent::ServerStatusChanged {
        space_id: 1,
        server_id: "srv".to_string(),
        status: ConnectionStatus::Connecting,
        flow_id: 3,
        has_connected_before: false,
        message: None,
        features: None,
    };
    assert!(!s.affects_mcp_capabilities());
    assert_eq!(s.server_id(), Some("srv"));
}

#[test]
fn capabilities_counts_and_order() {
    let caps = DiscoveredCapabilities {
        tools: vec![ServerFeature::tool("s", "srv", "t1")],
        prompts: vec![ServerFeature::prompt("s", "srv", "p1")],
        resources: vec![ServerFeature::resource("s", "srv", "r1"), ServerFeature::resource("s", "srv", "r2")],
    };
    assert_eq!(caps.total_count(), 4);
    assert!(!caps.is_empty());
    let names: Vec<String> = caps.all_features().into_iter().map(|f| f.feature_name).collect();
    assert_eq!(names, vec!["t1", "p1", "r1", "r2"]);
    assert!(DiscoveredCapabilities::new().is_empty());
}

#[test]
fn ui_mapping_of_status_change() {
    let caps = DiscoveredCapabilities {
        tools: vec![ServerFeature::tool("s", "srv", "t1")],
        prompts: vec![],
        resources: vec![],
    };
    let e = DomainEvent::ServerStatusChanged {
        space_id: 5,
        server_id: "srv".to_string(),
        status: ConnectionStatus::Connected,
        flow_id: 9,
        has_connected_before: true,
        message: Some("ok".to_string()),
        features: Some(caps),
    };
    let (channel, payload) = map_domain_event_to_ui(&e);
    assert_eq!(channel, "server-status-changed");
    let keys: Vec<&str> = payload.iter().map(|(k, _)| *k).collect();
    assert_eq!(
        keys,
        vec!["space_id", "server_id", "status", "flow_id", "has_connected_before", "message", "features"]
    );
    assert!(matches!(payload[2].1, PayloadValue::Text(ref s) if s == "connected"));
    assert!(matches!(payload[6].1, PayloadValue::Counts { tools: 1, prompts: 0, resources: 0 }));
}

#[test]
fn ui_mapping_channels() {
    let (c, p) = map_domain_event_to_ui(&DomainEvent::GatewayStopped);
    assert_eq!(c, "gateway-changed");
    assert!(matches!(p[0].1, PayloadValue::Text(ref s) if s == "stopped"));
    let (c, p) = map_domain_event_to_ui(&DomainEvent::ToolsChanged { space_id: 1, server_id: "x".to_string() });
    assert_eq!(c, "mcp-notification");
    assert_eq!(p[0].0, "type");
    let (c, _) = map_domain_event_to_ui(&DomainEvent::ClientTokenIssued { client_id: "c".to_string() });
    assert_eq!(c, "client-changed");
    let (c, p) = map_domain_event_to_ui(&DomainEvent::SpaceActivated {
        from_space_id: None,
        to_space_id: 3,
        to_space_name: "Work".to_string(),
    });
    assert_eq!(c, "space-changed");
    assert!(matches!(p[1].1, PayloadValue::Null));
}
