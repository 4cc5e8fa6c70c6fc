use std::collections::HashMap;

use opendesk::domain::device::{
    archive_device, device_matches_search, device_matches_search_with_metadata,
    device_matches_search_with_site_name, devices_for_default_list, format_notes_display,
    merge_device_update, normalize_device_draft, normalize_optional_trimmed, notes_list_title,
    unarchive_device, validate_device_draft, Device, DeviceDraft, DeviceSearchQuery,
    DeviceValidationError, NOTES_DISPLAY_MAX_LEN,
};

fn new_uuid() -> u128 {
    uuid::Uuid::new_v4().as_u128()
}

fn sample_device() -> Device {
    Device {
        device_uuid: new_uuid(),
        rustdesk_id: Some("123456789".to_string()),
        alias: "Workstation".to_string(),
        hostname: Some("ws-01".to_string()),
        os_family: Some("linux".to_string()),
        os_version: None,
        architecture: None,
        rustdesk_version: None,
        site_uuid: None,
        owner: Some("ops".to_string()),
        notes: Some("lab device".to_string()),
        archived: false,
        last_checkin_at: None,
    }
}

#[test]
fn validate_device_draft_requires_alias() {
    let draft = DeviceDraft {
        alias: "  ".to_string(),
        ..Default::default()
    };
    assert_eq!(
        validate_device_draft(&draft),
        Err(DeviceValidationError::EmptyAlias)
    );
}

#[test]
fn device_devices_for_default_list_excludes_archived_devices() {
    let mut active = sample_device();
    active.alias = "Active Workstation".to_string();
    let mut archived = sample_device();
    archived.alias = "Archived Workstation".to_string();
    archived.archived = true;
    let devices = vec![active, archived];
    let query = DeviceSearchQuery::default();
    let site_names = HashMap::new();
    let tag_names = HashMap::new();
    let listed = devices_for_default_list(&devices, &query, &site_names, &tag_names);
    assert_eq!(listed.len(), 1);
    assert_eq!(listed[0].alias, "Active Workstation");
}

#[test]
fn device_devices_for_default_list_hides_archived_even_when_search_matches() {
    let mut archived = sample_device();
    archived.alias = "Archived Workstation".to_string();
    archived.archived = true;
    let devices = vec![archived];
    let query = DeviceSearchQuery {
        term: "Archived".to_string(),
    };
    let site_names = HashMap::new();
    let tag_names = HashMap::new();
    let listed = devices_for_default_list(&devices, &query, &site_names, &tag_names);
    assert!(listed.is_empty());
}

#[test]
fn device_device_matches_search_includes_site_name() {
    let device = sample_device();
    let query = DeviceSearchQuery {
        term: "lab floor".to_string(),
    };
    assert!(device_matches_search_with_site_name(
        &device,
        &query,
        Some("Main Lab Floor")
    ));
}

#[test]
fn device_device_matches_search_includes_tag_name() {
    let device = sample_device();
    let query = DeviceSearchQuery {
        term: "production".to_string(),
    };
    assert!(device_matches_search_with_metadata(
        &device,
        &query,
        None,
        &["Production Fleet"]
    ));
}

#[test]
fn device_format_notes_display_truncates_long_values() {
    let long = "a".repeat(80);
    let display = format_notes_display(Some(&long));
    assert!(display.ends_with("..."));
    assert!(display.chars().count() <= NOTES_DISPLAY_MAX_LEN + 3);
    assert_eq!(format_notes_display(None), "-");
    assert_eq!(format_notes_display(Some("  ")), "-");
    assert_eq!(format_notes_display(Some("lab device")), "lab device");
}

#[test]
fn device_device_matches_search_by_notes() {
    let device = sample_device();
    let query = DeviceSearchQuery {
        term: "lab device".to_string(),
    };
    assert!(device_matches_search(&device, &query));
}

#[test]
fn device_device_matches_search_by_rustdesk_id() {
    let device = sample_device();
    let query = DeviceSearchQuery {
        term: "123456".to_string(),
    };
    assert!(device_matches_search(&device, &query));
}

#[test]
fn archive_device_sets_flag() {
    let device = sample_device();
    let archived = archive_device(&device);
    assert!(archived.archived);
}

#[test]
fn normalize_device_draft_trims_hostname_and_rustdesk_id() {
    let draft = normalize_device_draft(DeviceDraft {
        alias: "  Workstation  ".to_string(),
        rustdesk_id: Some(" 123456789 ".to_string()),
        hostname: Some(" ws-01 ".to_string()),
        ..Default::default()
    });
    assert_eq!(draft.alias, "Workstation");
    assert_eq!(draft.rustdesk_id.as_deref(), Some("123456789"));
    assert_eq!(draft.hostname.as_deref(), Some("ws-01"));
}

#[test]
fn merge_device_update_clears_site_when_form_unassigns() {
    let mut existing = sample_device();
    existing.site_uuid = Some(new_uuid());
    let form = DeviceDraft {
        alias: "Renamed".to_string(),
        site_uuid: None,
        ..Default::default()
    };
    let merged = merge_device_update(form, &existing);
    assert_eq!(merged.site_uuid, None);
    assert_eq!(merged.rustdesk_id.as_deref(), Some("123456789"));
}

#[test]
fn merge_device_update_assigns_site_from_form() {
    let existing = sample_device();
    let new_site = new_uuid();
    let form = DeviceDraft {
        alias: "Renamed".to_string(),
        site_uuid: Some(new_site),
        ..Default::default()
    };
    let merged = merge_device_update(form, &existing);
    assert_eq!(merged.site_uuid, Some(new_site));
}

#[test]
fn merge_device_update_preserves_enrollment_metadata() {
    let existing = sample_device();
    let form = DeviceDraft {
        alias: "Renamed".to_string(),
        rustdesk_id: None,
        hostname: None,
        owner: None,
        notes: Some("updated note".to_string()),
        ..Default::default()
    };
    let merged = merge_device_update(form, &existing);
    assert_eq!(merged.alias, "Renamed");
    assert_eq!(merged.os_family.as_deref(), Some("linux"));
    assert_eq!(merged.rustdesk_id.as_deref(), Some("123456789"));
    assert_eq!(merged.notes.as_deref(), Some("updated note"));
}

#[test]
fn unarchive_after_archive_restores_the_device() {
    let device = sample_device();
    assert_eq!(unarchive_device(&archive_device(&device)), device);
}

#[test]
fn normalize_device_draft_is_idempotent_on_sample() {
    let draft = DeviceDraft {
        alias: "  Lab  ".to_string(),
        rustdesk_id: Some("   ".to_string()),
        hostname: Some(" h ".to_string()),
        owner: Some(" ops ".to_string()),
        notes: Some("  ".to_string()),
        ..Default::default()
    };
    let once = normalize_device_draft(draft);
    let twice = normalize_device_draft(once.clone());
    assert_eq!(once, twice);
    assert_eq!(once.rustdesk_id, None);
    assert_eq!(once.notes, None);
    assert_eq!(once.owner.as_deref(), Some("ops"));
}

#[test]
fn normalize_optional_trimmed_drops_blank_values() {
    assert_eq!(normalize_optional_trimmed(Some("  x ".to_string())), Some("x".to_string()));
    assert_eq!(normalize_optional_trimmed(Some(" \t".to_string())), None);
    assert_eq!(normalize_optional_trimmed(None), None);
}

#[test]
fn validate_device_draft_reports_each_error() {
    let long_alias = DeviceDraft {
        alias: "a".repeat(129),
        ..Default::default()
    };
    assert_eq!(
        validate_device_draft(&long_alias),
        Err(DeviceValidationError::AliasTooLong)
    );
    let long_id = DeviceDraft {
        alias: "ok".to_string(),
        rustdesk_id: Some("1".repeat(65)),
        ..Default::default()
    };
    assert_eq!(
        validate_device_draft(&long_id),
        Err(DeviceValidationError::RustdeskIdTooLong)
    );
    let fine = DeviceDraft {
        alias: "ok".to_string(),
        ..Default::default()
    };
    assert_eq!(validate_device_draft(&fine), Ok(()));
    assert_eq!(DeviceValidationError::EmptyAlias.message(), "alias must not be empty");
    assert_eq!(DeviceValidationError::AliasTooLong.message(), "alias is too long");
    assert_eq!(DeviceValidationError::RustdeskIdTooLong.message(), "rustdesk_id is too long");
}

#[test]
fn notes_display_cuts_at_the_limit_exactly() {
    let long = "b".repeat(NOTES_DISPLAY_MAX_LEN + 1);
    let display = format_notes_display(Some(&long));
    assert_eq!(display, format!("{}...", "b".repeat(NOTES_DISPLAY_MAX_LEN)));
    let exact = "c".repeat(NOTES_DISPLAY_MAX_LEN);
    assert_eq!(format_notes_display(Some(&exact)), exact);
    assert_eq!(notes_list_title(Some("  keep  ")), "keep");
    assert_eq!(notes_list_title(None), "");
}

#[test]
fn default_list_keeps_matching_active_devices_in_order() {
    let mut first = sample_device();
    first.alias = "Alpha".to_string();
    let mut second = sample_device();
    second.alias = "Beta".to_string();
    second.notes = None;
    let site = new_uuid();
    second.site_uuid = Some(site);
    let devices = vec![first, second];
    let site_names = HashMap::from([(site, "North Office".to_string())]);
    let tag_names: HashMap<u128, Vec<String>> = HashMap::new();
    let query = DeviceSearchQuery {
        term: "NORTH".to_string(),
    };
    let listed = devices_for_default_list(&devices, &query, &site_names, &tag_names);
    assert_eq!(listed.len(), 1);
    assert_eq!(listed[0].alias, "Beta");
    let all = devices_for_default_list(&devices, &DeviceSearchQuery::default(), &site_names, &tag_names);
    assert_eq!(all.len(), 2);
    assert_eq!(all[0].alias, "Alpha");
}
