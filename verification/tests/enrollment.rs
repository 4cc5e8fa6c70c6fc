use opendesk::domain::device::DeviceDraft;
use opendesk::domain::enrollment_checkin::apply_checkin;
use opendesk::domain::device::Device;
use opendesk::domain::enrollment_checkin::{
    hostname_lookup_key, select_existing_device_for_checkin, EnrollmentDeviceLookup,
};
use opendesk::domain::enrollment_token::{
    check_enrollment_token_hash, enrollment_token_is_active, generate_enrollment_token_value,
    hash_enrollment_token_value, new_enrollment_token, validate_enrollment_token_label,
    verify_enrollment_token_value, EnrollmentTokenError, EnrollmentTokenRecord,
};
use opendesk::time_format::{parse_timestamp, Timestamp};

fn at(text: &str) -> Timestamp {
    parse_timestamp(text).expect("timestamp")
}

fn sample_device(alias: &str, rustdesk_id: &str, hostname: &str) -> Device {
    Device {
        device_uuid: uuid::Uuid::new_v4().as_u128(),
        rustdesk_id: Some(rustdesk_id.to_string()),
        alias: alias.to_string(),
        hostname: Some(hostname.to_string()),
        os_family: None,
        os_version: None,
        architecture: None,
        rustdesk_version: None,
        site_uuid: None,
        owner: None,
        notes: None,
        archived: false,
        last_checkin_at: None,
    }
}

fn active_record() -> EnrollmentTokenRecord {
    EnrollmentTokenRecord {
        enrollment_token_uuid: uuid::Uuid::new_v4().as_u128(),
        token_hash: hash_enrollment_token_value("test-token-value"),
        label: "lab".to_string(),
        site_uuid: None,
        expires_at: Some(at("2026-12-31T00:00:00Z")),
        revoked_at: None,
    }
}

#[test]
fn select_existing_device_prefers_rustdesk_id_match() {
    let by_rustdesk_id = sample_device("alpha", "111222333", "host-a");
    let by_hostname = sample_device("beta", "999888777", "host-b");
    let selected = select_existing_device_for_checkin(&EnrollmentDeviceLookup {
        by_rustdesk_id: Some(by_rustdesk_id.clone()),
        by_hostname: Some(by_hostname),
    });
    assert_eq!(selected, Some(by_rustdesk_id.device_uuid));
}

#[test]
fn select_existing_device_falls_back_to_hostname_match() {
    let by_hostname = sample_device("beta", "999888777", "host-b");
    let selected = select_existing_device_for_checkin(&EnrollmentDeviceLookup {
        by_rustdesk_id: None,
        by_hostname: Some(by_hostname.clone()),
    });
    assert_eq!(selected, Some(by_hostname.device_uuid));
}

#[test]
fn select_existing_device_returns_none_when_no_match() {
    assert_eq!(
        select_existing_device_for_checkin(&EnrollmentDeviceLookup::default()),
        None
    );
}

#[test]
fn hostname_lookup_key_rejects_blank_values() {
    assert_eq!(hostname_lookup_key(Some("  ")), None);
    assert_eq!(
        hostname_lookup_key(Some("ws-01")),
        Some("ws-01".to_string())
    );
}

#[test]
fn verify_enrollment_token_value_accepts_matching_token() {
    let record = active_record();
    assert!(verify_enrollment_token_value(&record, "test-token-value", at("2026-06-23T00:00:00Z")).is_ok());
}

#[test]
fn verify_enrollment_token_value_rejects_revoked_token() {
    let mut record = active_record();
    record.revoked_at = Some(at("2026-06-01T00:00:00Z"));
    assert_eq!(
        verify_enrollment_token_value(&record, "test-token-value", at("2026-06-23T00:00:00Z")),
        Err(EnrollmentTokenError::Revoked)
    );
}

#[test]
fn token_hash_is_hex_sha256_of_the_value() {
    assert_eq!(
        hash_enrollment_token_value("test-token-value"),
        "bc6a34869b72942287fb20fdce092fc392e924b4f1986b5dfa47fbc101e2c7fb"
    );
}

#[test]
fn token_errors_cover_expiry_wrong_value_and_label() {
    let record = active_record();
    assert_eq!(
        verify_enrollment_token_value(&record, "test-token-value", at("2026-12-31T00:00:00Z")),
        Err(EnrollmentTokenError::Expired)
    );
    assert_eq!(
        verify_enrollment_token_value(&record, "other-value", at("2026-06-23T00:00:00Z")),
        Err(EnrollmentTokenError::Invalid)
    );
    assert_eq!(
        enrollment_token_is_active(&record, at("2026-12-30T23:59:59Z")),
        Ok(())
    );
    assert_eq!(
        check_enrollment_token_hash(&record, &record.token_hash.clone(), at("2026-06-23T00:00:00Z")),
        Ok(())
    );
    assert_eq!(validate_enrollment_token_label("   "), Err(EnrollmentTokenError::EmptyLabel));
    assert_eq!(validate_enrollment_token_label(" lab "), Ok(()));
    assert_eq!(EnrollmentTokenError::Expired.message(), "enrollment token has expired");
}

#[test]
fn generated_token_value_is_64_lower_hex_digits() {
    let a = generate_enrollment_token_value();
    let b = generate_enrollment_token_value();
    assert_eq!(a.len(), 64);
    assert!(a.chars().all(|c| c.is_ascii_digit() || ('a'..='f').contains(&c)));
    assert_ne!(a, b);
}

#[test]
fn new_token_accepts_its_own_value() {
    let created = new_enrollment_token("lab", None, None);
    assert_eq!(created.record.label, "lab");
    assert_eq!(created.record.revoked_at, None);
    assert_eq!(created.record.token_hash, hash_enrollment_token_value(&created.token_value));
    let version = (created.record.enrollment_token_uuid >> 76) & 0xF;
    assert_eq!(version, 4);
    assert_eq!(
        verify_enrollment_token_value(&created.record, &created.token_value, at("2026-06-23T00:00:00Z")),
        Ok(())
    );
}

#[test]
fn checkin_keeps_stored_fields_it_was_not_sent() {
    let mut existing = sample_device("alpha", "111222333", "host-a");
    existing.os_family = Some("linux".to_string());
    existing.notes = Some("keep".to_string());
    let draft = DeviceDraft {
        alias: "ignored".to_string(),
        rustdesk_id: None,
        hostname: Some("host-b".to_string()),
        rustdesk_version: Some("1.4.8".to_string()),
        ..Default::default()
    };
    let after = apply_checkin(&existing, &draft, "2026-06-24T12:00:00Z");
    assert_eq!(after.device_uuid, existing.device_uuid);
    assert_eq!(after.alias, "alpha");
    assert_eq!(after.rustdesk_id.as_deref(), Some("111222333"));
    assert_eq!(after.hostname.as_deref(), Some("host-b"));
    assert_eq!(after.os_family.as_deref(), Some("linux"));
    assert_eq!(after.rustdesk_version.as_deref(), Some("1.4.8"));
    assert_eq!(after.notes.as_deref(), Some("keep"));
    assert_eq!(after.last_checkin_at.as_deref(), Some("2026-06-24T12:00:00Z"));
}
