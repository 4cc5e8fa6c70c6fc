use opendesk::domain::connection_helper::{
    explicit_server_helper_for_device, generate_default_server_helper,
    generate_explicit_server_helper,
};
use opendesk::domain::server_config::default_server_config;

#[test]
fn default_helper_returns_plain_rustdesk_id() {
    assert_eq!(
        generate_default_server_helper(Some(" 123456789 ")),
        Some("123456789".to_string())
    );
    assert_eq!(generate_default_server_helper(None), None);
}

#[test]
fn explicit_helper_uses_id_server_port_and_key() {
    let mut config = default_server_config();
    config.public_key = "test-public-key".to_string();
    assert_eq!(
        generate_explicit_server_helper(Some("987654321"), &config, 21117),
        Some("987654321@rd.example.com:21117?key=test-public-key".to_string())
    );
}

#[test]
fn explicit_helper_strips_port_suffix_from_id_server() {
    let mut config = default_server_config();
    config.id_server = "rd.example.com:21116".to_string();
    config.public_key = "test-public-key".to_string();
    assert_eq!(
        generate_explicit_server_helper(Some("123456789"), &config, 21117),
        Some("123456789@rd.example.com:21117?key=test-public-key".to_string())
    );
}

#[test]
fn explicit_helper_requires_rustdesk_id_and_key() {
    let config = default_server_config();
    assert_eq!(generate_explicit_server_helper(Some(""), &config, 21117), None);
    let mut missing_key = config.clone();
    missing_key.public_key = "  ".to_string();
    assert_eq!(
        generate_explicit_server_helper(Some("123"), &missing_key, 21117),
        None
    );
}

#[test]
fn explicit_helper_for_device_uses_relay_port() {
    let mut config = default_server_config();
    config.public_key = " k ".to_string();
    assert_eq!(
        explicit_server_helper_for_device(Some(" 42 "), &config),
        Some("42@rd.example.com:21117?key=k".to_string())
    );
    assert_eq!(explicit_server_helper_for_device(None, &config), None);
    assert_eq!(generate_default_server_helper(Some("  ")), None);
}
