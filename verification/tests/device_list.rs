use std::collections::HashMap;

use opendesk::domain::device::Device;
use opendesk::domain::device_list::{
    device_in_default_list, device_matches_search, device_matches_search_with_metadata,
    device_matches_search_with_site_name, devices_for_default_list, format_notes_display,
    notes_list_title, rustdesk_id_copy_text, DeviceSearchQuery, NOTES_DISPLAY_MAX_LEN,
};

fn sample_device() -> Device {
    Device {
        device_uuid: uuid::Uuid::new_v4().as_u128(),
        rustdesk_id: Some("123456789".to_string()),
        alias: "Workstation".to_string(),
        hostname: Some("ws-01".to_string()),
        os_family: Some("linux".to_string()),
        os_version: None,
        architecture: None,
        rustdesk_version: None,
        site_uuid: None,
        owner: Some("ops".to_string()),
        notes: Some("lab device".to_string()),
        archived: false,
        last_checkin_at: None,
    }
}

#[test]
fn device_list_devices_for_default_list_excludes_archived_devices() {
    let mut active = sample_device();
    active.alias = "Active Workstation".to_string();
    let mut archived = sample_device();
    archived.alias = "Archived Workstation".to_string();
    archived.archived = true;
    let devices = vec![active, archived];
    let query = DeviceSearchQuery::default();
    let site_names = HashMap::new();
    let tag_names = HashMap::new();
    let listed = devices_for_default_list(&devices, &query, &site_names, &tag_names);
    assert_eq!(listed.len(), 1);
    assert_eq!(listed[0].alias, "Active Workstation");
}

#[test]
fn device_list_devices_for_default_list_hides_archived_even_when_search_matches() {
    let mut archived = sample_device();
    archived.alias = "Archived Workstation".to_string();
    archived.archived = true;
    let devices = vec![archived];
    let query = DeviceSearchQuery {
        term: "Archived".to_string(),
    };
    let site_names = HashMap::new();
    let tag_names = HashMap::new();
    let listed = devices_for_default_list(&devices, &query, &site_names, &tag_names);
    assert!(listed.is_empty());
}

#[test]
fn device_list_device_matches_search_includes_site_name() {
    let device = sample_device();
    let query = DeviceSearchQuery {
        term: "lab floor".to_string(),
    };
    assert!(device_matches_search_with_site_name(
        &device,
        &query,
        Some("Main Lab Floor")
    ));
}

#[test]
fn device_list_device_matches_search_includes_tag_name() {
    let device = sample_device();
    let query = DeviceSearchQuery {
        term: "production".to_string(),
    };
    assert!(device_matches_search_with_metadata(
        &device,
        &query,
        None,
        &["Production Fleet"]
    ));
}

#[test]
fn rustdesk_id_copy_text_returns_trimmed_id() {
    assert_eq!(
        rustdesk_id_copy_text(Some(" 123456789 ")),
        Some("123456789".to_string())
    );
    assert_eq!(rustdesk_id_copy_text(None), None);
    assert_eq!(rustdesk_id_copy_text(Some("   ")), None);
}

#[test]
fn device_list_format_notes_display_truncates_long_values() {
    let long = "a".repeat(80);
    let display = format_notes_display(Some(&long));
    assert!(display.ends_with("..."));
    assert!(display.chars().count() <= NOTES_DISPLAY_MAX_LEN + 3);
    assert_eq!(format_notes_display(None), "-");
    assert_eq!(format_notes_display(Some("  ")), "-");
    assert_eq!(format_notes_display(Some("lab device")), "lab device");
}

#[test]
fn device_list_device_matches_search_by_notes() {
    let device = sample_device();
    let query = DeviceSearchQuery {
        term: "lab device".to_string(),
    };
    assert!(device_matches_search(&device, &query));
}

#[test]
fn device_list_device_matches_search_by_rustdesk_id() {
    let device = sample_device();
    let query = DeviceSearchQuery {
        term: "123456".to_string(),
    };
    assert!(device_matches_search(&device, &query));
}

#[test]
fn device_list_in_default_list_requires_active_and_match() {
    let device = sample_device();
    let query = DeviceSearchQuery {
        term: "fleet".to_string(),
    };
    assert!(device_in_default_list(&device, &query, None, &["Fleet A"]));
    assert!(!device_in_default_list(&device, &query, None, &[]));
    let mut archived = sample_device();
    archived.archived = true;
    assert!(!device_in_default_list(&archived, &DeviceSearchQuery::default(), None, &[]));
    assert_eq!(notes_list_title(Some(" lab ")), "lab");
}
