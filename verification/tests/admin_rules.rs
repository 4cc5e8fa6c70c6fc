use opendesk::domain::tag::device_tag_names_map;
use opendesk::domain::server_config::{
    default_server_config, validate_server_config, ServerConfig, ServerConfigValidationError,
};
use opendesk::domain::site::{normalize_site_name, validate_site_draft, SiteDraft, SiteValidationError};
use opendesk::domain::tag::{
    format_tag_names_display, normalize_tag_name, validate_tag_draft, TagDraft, TagValidationError,
};
use opendesk::domain::user::{validate_username, UserValidationError};

#[test]
fn validate_server_config_requires_id_server() {
    let config = ServerConfig {
        id_server: " ".to_string(),
        relay_server: "rd.example.com".to_string(),
        api_server: String::new(),
        public_key: String::new(),
    };
    assert_eq!(
        validate_server_config(&config),
        Err(ServerConfigValidationError::EmptyIdServer)
    );
}

#[test]
fn default_server_config_uses_placeholders() {
    let config = default_server_config();
    assert_eq!(config.id_server, "rd.example.com");
    assert_eq!(config.relay_server, "rd.example.com");
}

#[test]
fn validate_server_config_requires_relay_server() {
    let mut config = default_server_config();
    config.relay_server = "\t".to_string();
    assert_eq!(
        validate_server_config(&config),
        Err(ServerConfigValidationError::EmptyRelayServer)
    );
    assert_eq!(validate_server_config(&default_server_config()), Ok(()));
    assert_eq!(
        ServerConfigValidationError::EmptyRelayServer.message(),
        "relay_server must not be empty"
    );
}

#[test]
fn validate_site_draft_rejects_empty_name() {
    let draft = SiteDraft {
        name: "   ".to_string(),
    };
    assert_eq!(validate_site_draft(&draft), Err(SiteValidationError::EmptyName));
}

#[test]
fn validate_site_draft_accepts_trimmed_name() {
    let draft = SiteDraft {
        name: "  Lab Floor  ".to_string(),
    };
    assert!(validate_site_draft(&draft).is_ok());
    assert_eq!(normalize_site_name(&draft.name), "Lab Floor");
}

#[test]
fn validate_site_draft_rejects_long_name() {
    let draft = SiteDraft {
        name: "s".repeat(129),
    };
    assert_eq!(validate_site_draft(&draft), Err(SiteValidationError::NameTooLong));
    let ok = SiteDraft {
        name: "s".repeat(128),
    };
    assert_eq!(validate_site_draft(&ok), Ok(()));
}

#[test]
fn validate_tag_draft_rejects_empty_name() {
    let draft = TagDraft {
        name: "   ".to_string(),
    };
    assert_eq!(validate_tag_draft(&draft), Err(TagValidationError::EmptyName));
}

#[test]
fn format_tag_names_display_joins_names() {
    assert_eq!(
        format_tag_names_display(&["ops".to_string(), "lab".to_string()]),
        "ops, lab"
    );
    assert_eq!(format_tag_names_display(&[]), "-");
}

#[test]
fn tag_names_are_trimmed_and_bounded() {
    assert_eq!(normalize_tag_name("  fleet "), "fleet");
    let long = TagDraft {
        name: "t".repeat(129),
    };
    assert_eq!(validate_tag_draft(&long), Err(TagValidationError::NameTooLong));
}

#[test]
fn validate_username_rejects_empty() {
    assert_eq!(validate_username("   "), Err(UserValidationError::EmptyUsername));
}

#[test]
fn validate_username_accepts_normal_value() {
    assert!(validate_username("admin").is_ok());
}

#[test]
fn validate_username_rejects_long_value() {
    assert_eq!(validate_username(&"u".repeat(65)), Err(UserValidationError::UsernameTooLong));
    assert_eq!(validate_username(&"u".repeat(64)), Ok(()));
}

#[test]
fn tag_names_are_grouped_by_device_in_row_order() {
    let rows = vec![
        (1u128, "lab".to_string()),
        (2u128, "ops".to_string()),
        (1u128, "prod".to_string()),
    ];
    let map = device_tag_names_map(&rows);
    assert_eq!(map.len(), 2);
    assert_eq!(map[&1], vec!["lab".to_string(), "prod".to_string()]);
    assert_eq!(map[&2], vec!["ops".to_string()]);
    assert!(device_tag_names_map(&[]).is_empty());
}

#[test]
fn name_taken_messages() {
    assert_eq!(opendesk::domain::site::SITE_NAME_TAKEN_MESSAGE, "site name already exists");
    assert_eq!(opendesk::domain::tag::TAG_NAME_TAKEN_MESSAGE, "tag name already exists");
}
