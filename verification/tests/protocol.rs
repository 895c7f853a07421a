use mcpmux::protocol::negotiate_protocol_version;

#[test]
fn newer_clients_get_our_version() {
    assert_eq!(negotiate_protocol_version("2099-01-01", "2025-06-18"), "2025-06-18");
    assert_eq!(negotiate_protocol_version("2024-11-05", "2025-06-18"), "2024-11-05");
    assert_eq!(negotiate_protocol_version("2025-06-18", "2025-06-18"), "2025-06-18");
    assert_eq!(negotiate_protocol_version("2025-06-18x", "2025-06-18"), "2025-06-18");
    assert_eq!(negotiate_protocol_version("", "2025-06-18"), "");
}
