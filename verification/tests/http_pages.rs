use std::collections::HashMap;

use opendesk::domain::device::{Device, DeviceDraft};
use opendesk::domain::device_list::DeviceSearchQuery;
use opendesk::domain::enrollment_token::{hash_enrollment_token_value, EnrollmentTokenRecord};
use opendesk::domain::server_config::default_server_config;
use opendesk::domain::site::Site;
use opendesk::domain::tag::Tag;
use opendesk::http::device_export::export_csv_href;
use opendesk::http::devices::{
    assigned_tag_uuids, device_edit_draft, device_form_to_draft, device_path, device_row_view, devices_list_rows,
    DeviceForm,
};
use opendesk::http::enrollment::{
    admit_checkin, checkin_draft, checkin_lookup_keys, CheckinRejection, EnrollmentCheckinRequest,
};
use opendesk::http::render::{
    deployment_token_options, deployment_view, device_form_view, enrollment_token_rows,
    enrollment_token_status, enrollment_token_status_at, server_config_from_form, site_options,
    site_rows, tag_options, tag_rows, DEPLOYMENT_BASE_URL, DEPLOYMENT_TOKEN_PLACEHOLDER,
};
use opendesk::time_format::{parse_timestamp, Timestamp};

const DEVICE_UUID: u128 = 0x550e8400_e29b_41d4_a716_446655440000;

fn at(text: &str) -> Timestamp {
    parse_timestamp(text).expect("timestamp")
}

fn device() -> Device {
    Device {
        device_uuid: DEVICE_UUID,
        rustdesk_id: Some("123456789".to_string()),
        alias: "Lab Workstation".to_string(),
        hostname: None,
        os_family: Some("linux".to_string()),
        os_version: None,
        architecture: None,
        rustdesk_version: None,
        site_uuid: Some(1),
        owner: None,
        notes: Some("  Keep firmware updated weekly ".to_string()),
        archived: false,
        last_checkin_at: None,
    }
}

fn token(uuid: u128, label: &str, revoked: bool) -> EnrollmentTokenRecord {
    EnrollmentTokenRecord {
        enrollment_token_uuid: uuid,
        token_hash: hash_enrollment_token_value("value"),
        label: label.to_string(),
        site_uuid: Some(1),
        expires_at: None,
        revoked_at: if revoked { Some(at("2026-01-01T00:00:00Z")) } else { None },
    }
}

#[test]
fn device_row_shows_every_cell() {
    let tags = vec!["ops".to_string()];
    let row = device_row_view(&device(), Some("Main Lab"), &tags);
    assert_eq!(row.device_uuid, "550e8400-e29b-41d4-a716-446655440000");
    assert_eq!(row.site_display, "Main Lab");
    assert_eq!(row.tags_display, "ops");
    assert_eq!(row.notes_display, "Keep firmware updated weekly");
    assert_eq!(row.notes_title, "Keep firmware updated weekly");
    assert_eq!(row.rustdesk_id_display, "123456789");
    assert_eq!(row.hostname_display, "-");
    assert_eq!(row.last_checkin_display, "-");
    assert_eq!(row.archived_display, "no");
}

#[test]
fn device_list_rows_follow_the_default_list() {
    let mut archived = device();
    archived.archived = true;
    archived.alias = "Old".to_string();
    let devices = vec![device(), archived];
    let site_names = HashMap::from([(1u128, "North".to_string())]);
    let tag_names: HashMap<u128, Vec<String>> = HashMap::new();
    let rows = devices_list_rows(&devices, &DeviceSearchQuery::default(), &site_names, &tag_names);
    assert_eq!(rows.len(), 1);
    assert_eq!(rows[0].alias, "Lab Workstation");
    assert_eq!(rows[0].site_display, "North");
    assert_eq!(rows[0].tags_display, "-");
}

#[test]
fn device_form_to_draft_drops_blank_fields_and_bad_site() {
    let draft = device_form_to_draft(DeviceForm {
        alias: " Renamed device ".to_string(),
        rustdesk_id: Some("".to_string()),
        hostname: Some("  ".to_string()),
        owner: Some("ops".to_string()),
        notes: Some("operator note".to_string()),
        site_uuid: Some("not-a-uuid".to_string()),
        tag_uuids: vec![],
    });
    assert_eq!(draft.alias, " Renamed device ");
    assert_eq!(draft.rustdesk_id, None);
    assert_eq!(draft.hostname, None);
    assert_eq!(draft.owner.as_deref(), Some("ops"));
    assert_eq!(draft.notes.as_deref(), Some("operator note"));
    assert_eq!(draft.site_uuid, None);
    let with_site = device_form_to_draft(DeviceForm {
        alias: "x".to_string(),
        site_uuid: Some("550e8400-e29b-41d4-a716-446655440000".to_string()),
        ..Default::default()
    });
    assert_eq!(with_site.site_uuid, Some(DEVICE_UUID));
}

#[test]
fn export_href_encodes_the_search_term() {
    assert_eq!(export_csv_href("   "), "/devices/export.csv");
    assert_eq!(export_csv_href(" lab floor "), "/devices/export.csv?term=lab+floor");
    assert_eq!(export_csv_href("a&b/é"), "/devices/export.csv?term=a%26b%2F%E9");
}

#[test]
fn options_mark_the_selection() {
    let sites = vec![
        Site { site_uuid: 1, name: "A".to_string() },
        Site { site_uuid: 2, name: "B".to_string() },
    ];
    let options = site_options(&sites, Some(2));
    assert_eq!(options.len(), 2);
    assert!(!options[0].selected);
    assert!(options[1].selected);
    assert_eq!(options[0].site_uuid, "00000000-0000-0000-0000-000000000001");
    let tags = vec![Tag { tag_uuid: 3, name: "ops".to_string() }];
    let tag_opts = tag_options(&tags, &[3]);
    assert!(tag_opts[0].selected);
    let rows = site_rows(&sites);
    assert_eq!(rows[1].name, "B");
    assert_eq!(rows[1].site_uuid, "00000000-0000-0000-0000-000000000002");
    let trows = tag_rows(&tags);
    assert_eq!(trows[0].tag_uuid, "00000000-0000-0000-0000-000000000003");
}

#[test]
fn device_form_view_fills_fields_from_the_draft() {
    let draft = DeviceDraft {
        alias: "Lab".to_string(),
        rustdesk_id: Some("987654321".to_string()),
        site_uuid: Some(2),
        ..Default::default()
    };
    let sites = vec![Site { site_uuid: 2, name: "B".to_string() }];
    let view = device_form_view(
        "Edit device",
        "/devices/x",
        DEVICE_UUID,
        draft,
        &sites,
        &[],
        &[],
        Some("alias is too long".to_string()),
        true,
        false,
    );
    assert_eq!(view.heading, "Edit device");
    assert_eq!(view.form_action, "/devices/x");
    assert_eq!(view.device_uuid, "550e8400-e29b-41d4-a716-446655440000");
    assert_eq!(view.rustdesk_id, "987654321");
    assert_eq!(view.hostname, "");
    assert!(view.site_options[0].selected);
    assert_eq!(view.error_message.as_deref(), Some("alias is too long"));
    assert!(view.show_archive_actions);
    assert!(!view.show_unarchive_actions);
}

#[test]
fn token_status_and_rows() {
    let now = at("2026-06-23T00:00:00Z");
    let mut expiring = token(1, "lab", false);
    expiring.expires_at = Some(at("2026-06-01T00:00:00Z"));
    assert_eq!(enrollment_token_status_at(&expiring, now), "expired");
    assert_eq!(enrollment_token_status_at(&token(2, "x", true), now), "revoked");
    assert_eq!(enrollment_token_status_at(&token(3, "y", false), now), "active");
    assert_eq!(enrollment_token_status(&token(2, "x", true)), "revoked");
    let rows = enrollment_token_rows(&[token(2, "x", true), token(3, "y", false)], now);
    assert!(!rows[0].can_revoke);
    assert!(rows[1].can_revoke);
    assert_eq!(rows[1].status, "active");
}

#[test]
fn deployment_page_preselects_first_token_and_renders_scripts() {
    let now = at("2026-06-23T00:00:00Z");
    let tokens = vec![token(1, "first", false), token(2, "second", false)];
    let options = deployment_token_options(&tokens, None, now);
    assert!(options[0].selected);
    assert!(!options[1].selected);
    let chosen = deployment_token_options(&tokens, Some(2), now);
    assert!(!chosen[0].selected);
    assert!(chosen[1].selected);
    let config = default_server_config();
    let view = deployment_view(&config, &tokens, None, now);
    assert_eq!(view.title, "Deployment");
    assert_eq!(view.enrollment_token_value, DEPLOYMENT_TOKEN_PLACEHOLDER);
    assert_eq!(view.public_base_url, DEPLOYMENT_BASE_URL);
    assert!(view.linux_script.contains("REPLACE_WITH_ENROLLMENT_TOKEN"));
    assert!(view.windows_script.contains("https://rd-admin.example.com"));
    assert!(view.macos_script.contains("OS_FAMILY=\"macos\""));
    assert!(view.macos_script.contains("REPLACE_WITH_ENROLLMENT_TOKEN"));
    assert_eq!(view.installer_filename, "rustdesk-host=rd.example.com.exe");
    assert_eq!(view.tokens.len(), 2);
}

#[test]
fn server_config_form_defaults_missing_fields_to_empty() {
    let config = server_config_from_form("id".to_string(), "relay".to_string(), None, Some("k".to_string()));
    assert_eq!(config.id_server, "id");
    assert_eq!(config.relay_server, "relay");
    assert_eq!(config.api_server, "");
    assert_eq!(config.public_key, "k");
}

#[test]
fn checkin_admission_decides_each_outcome() {
    let now = at("2026-06-23T00:00:00Z");
    let record = token(9, "lab", false);
    let body = EnrollmentCheckinRequest {
        enrollment_token: "value".to_string(),
        rustdesk_id: Some(" 998877665 ".to_string()),
        hostname: Some("dev-host".to_string()),
        os_family: Some("linux".to_string()),
        architecture: Some("x86_64".to_string()),
        ..Default::default()
    };
    let draft = admit_checkin(Some(&record), &body, now).expect("admitted");
    assert_eq!(draft.alias, "dev-host");
    assert_eq!(draft.rustdesk_id.as_deref(), Some("998877665"));
    assert_eq!(draft.site_uuid, Some(1));
    assert_eq!(draft, checkin_draft(&body, Some(1)));
    let (by_id, by_host) = checkin_lookup_keys(&draft);
    assert_eq!(by_id.as_deref(), Some("998877665"));
    assert_eq!(by_host.as_deref(), Some("dev-host"));
    assert_eq!(admit_checkin(None, &body, now), Err(CheckinRejection::Unauthorized));
    let wrong = EnrollmentCheckinRequest {
        enrollment_token: "other".to_string(),
        ..body.clone()
    };
    assert_eq!(admit_checkin(Some(&record), &wrong, now), Err(CheckinRejection::Unauthorized));
    let revoked = token(9, "lab", true);
    assert_eq!(admit_checkin(Some(&revoked), &body, now), Err(CheckinRejection::Unauthorized));
    let blank = EnrollmentCheckinRequest {
        enrollment_token: "value".to_string(),
        hostname: Some("   ".to_string()),
        ..Default::default()
    };
    assert_eq!(admit_checkin(Some(&record), &blank, now), Err(CheckinRejection::BadRequest));
    let anonymous = EnrollmentCheckinRequest {
        enrollment_token: "value".to_string(),
        ..Default::default()
    };
    assert_eq!(
        admit_checkin(Some(&record), &anonymous, now).expect("admitted").alias,
        "enrolled-device"
    );
}

#[test]
fn device_path_and_edit_draft() {
    assert_eq!(device_path(DEVICE_UUID), "/devices/550e8400-e29b-41d4-a716-446655440000");
    let d = device();
    let draft = device_edit_draft(&d);
    assert_eq!(draft.alias, d.alias);
    assert_eq!(draft.rustdesk_id, d.rustdesk_id);
    assert_eq!(draft.notes, d.notes);
    assert_eq!(draft.site_uuid, d.site_uuid);
    assert_eq!(draft.os_family, d.os_family);
}

#[test]
fn deployment_page_offers_macos_script_and_installer_name() {
    let mut config = default_server_config();
    config.public_key = "test-public-key".to_string();
    let view = deployment_view(&config, &[], None, at("2026-06-23T00:00:00Z"));
    assert!(view.macos_script.contains("OS_FAMILY="));
    assert!(view.macos_script.contains("macos"));
    assert!(view.installer_filename.starts_with("rustdesk-host=rd.example.com,"));
    assert_eq!(
        view.installer_filename,
        "rustdesk-host=rd.example.com,key=test-public-key,relay=rd.example.com.exe"
    );
}

#[test]
fn tag_assignment_keeps_known_tags_once_in_order() {
    let tags = vec![
        Tag { tag_uuid: 1, name: "a".to_string() },
        Tag { tag_uuid: 2, name: "b".to_string() },
    ];
    let submitted = vec![
        "00000000-0000-0000-0000-000000000002".to_string(),
        "not-a-uuid".to_string(),
        "00000000-0000-0000-0000-000000000009".to_string(),
        "00000000-0000-0000-0000-000000000001".to_string(),
        "00000000-0000-0000-0000-000000000002".to_string(),
    ];
    assert_eq!(assigned_tag_uuids(&submitted, &tags), vec![2, 1]);
    assert!(assigned_tag_uuids(&[], &tags).is_empty());
}

#[test]
fn export_href_escapes_query_separators() {
    let href = export_csv_href("a=b&c#d e+f%");
    assert_eq!(href, "/devices/export.csv?term=a%3Db%26c%23d+e%2Bf%25");
}
