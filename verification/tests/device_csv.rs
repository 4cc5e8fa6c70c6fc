use std::collections::HashMap;

use opendesk::domain::device::Device;
use opendesk::domain::device_list::DeviceSearchQuery;
use opendesk::domain::device_csv::{
    device_to_csv_row, escape_csv_field, render_csv_row, render_devices_csv, DEVICE_CSV_HEADER,
};

fn sample_device() -> Device {
    Device {
        device_uuid: uuid::Uuid::parse_str("550e8400-e29b-41d4-a716-446655440000")
            .expect("uuid")
            .as_u128(),
        rustdesk_id: Some("123456789".to_string()),
        alias: "Lab Workstation".to_string(),
        hostname: Some("ws-01".to_string()),
        os_family: Some("linux".to_string()),
        os_version: Some("24.04".to_string()),
        architecture: Some("x86_64".to_string()),
        rustdesk_version: Some("1.4.8".to_string()),
        site_uuid: None,
        owner: Some("ops".to_string()),
        notes: Some("Needs reboot".to_string()),
        archived: false,
        last_checkin_at: Some("2026-06-24T12:00:00Z".to_string()),
    }
}

#[test]
fn escape_csv_field_quotes_commas_and_newlines() {
    assert_eq!(escape_csv_field("plain"), "plain");
    assert_eq!(escape_csv_field("a,b"), "\"a,b\"");
    assert_eq!(escape_csv_field("say \"hi\""), "\"say \"\"hi\"\"\"");
    assert_eq!(escape_csv_field("line\nbreak"), "\"line\nbreak\"");
}

#[test]
fn render_devices_csv_includes_header_and_device_fields() {
    let site_uuid = uuid::Uuid::new_v4().as_u128();
    let mut device = sample_device();
    device.site_uuid = Some(site_uuid);
    let devices = vec![device];
    let site_names = HashMap::from([(site_uuid, "Main Lab".to_string())]);
    let tag_names = HashMap::from([(devices[0].device_uuid, vec!["Production".to_string()])]);
    let csv = render_devices_csv(
        &devices,
        &DeviceSearchQuery::default(),
        &site_names,
        &tag_names,
    );
    assert!(csv.starts_with(DEVICE_CSV_HEADER));
    assert!(csv.contains("550e8400-e29b-41d4-a716-446655440000"));
    assert!(csv.contains("Lab Workstation"));
    assert!(csv.contains("123456789"));
    assert!(csv.contains("Main Lab"));
    assert!(csv.contains("Production"));
    assert!(csv.contains("Needs reboot"));
}

#[test]
fn render_devices_csv_excludes_archived_devices() {
    let mut archived = sample_device();
    archived.archived = true;
    archived.alias = "Archived Device".to_string();
    let active = sample_device();
    let devices = vec![archived, active];
    let csv = render_devices_csv(
        &devices,
        &DeviceSearchQuery::default(),
        &HashMap::new(),
        &HashMap::new(),
    );
    assert!(!csv.contains("Archived Device"));
    assert!(csv.contains("Lab Workstation"));
}

#[test]
fn escape_csv_field_quotes_carriage_returns() {
    assert_eq!(escape_csv_field("a\rb"), "\"a\rb\"");
    assert_eq!(escape_csv_field(""), "");
}

#[test]
fn csv_row_renders_every_column_in_order() {
    let device = sample_device();
    let tags = vec!["ops".to_string(), "lab".to_string()];
    let row = device_to_csv_row(&device, Some("Main, Lab"), &tags);
    let line = render_csv_row(&row);
    assert_eq!(
        line,
        "550e8400-e29b-41d4-a716-446655440000,Lab Workstation,123456789,ws-01,\"Main, Lab\",\"ops, lab\",Needs reboot,ops,linux,24.04,x86_64,1.4.8,2026-06-24T12:00:00Z"
    );
}

#[test]
fn render_devices_csv_ends_each_line_with_newline() {
    let csv = render_devices_csv(
        &[sample_device()],
        &DeviceSearchQuery::default(),
        &HashMap::new(),
        &HashMap::new(),
    );
    assert_eq!(csv.lines().count(), 2);
    assert!(csv.ends_with("\n"));
    assert!(csv.starts_with(&format!("{}\n", DEVICE_CSV_HEADER)));
}
