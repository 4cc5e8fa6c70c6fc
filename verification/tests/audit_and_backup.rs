use opendesk::domain::audit_event::{
    redact_audit_detail, stored_audit_detail, success_audit, AuditDetail, AuditEntry,
    AuditEventDraft, REDACTED,
};
use opendesk::domain::backup::{
    assemble_backup_document, backup_enrollment_token_of, restore_confirmed, restore_plan,
    validate_backup_document,
    BackupDocument, BackupSensitivity, BackupUser, BackupValidationError, RestoreStep,
    RestoreTable, BACKUP_SCHEMA_VERSION,
};
use opendesk::domain::enrollment_token::EnrollmentTokenRecord;
use opendesk::domain::server_config::default_server_config;
use opendesk::domain::site::Site;
use opendesk::time_format::parse_timestamp;

fn text(s: &str) -> AuditDetail {
    AuditDetail::String(s.to_string())
}

fn entry(key: &str, value: AuditDetail) -> AuditEntry {
    AuditEntry {
        key: key.to_string(),
        value,
    }
}

fn field<'a>(detail: &'a AuditDetail, key: &str) -> &'a AuditDetail {
    match detail {
        AuditDetail::Object(entries) => {
            &entries.iter().find(|e| e.key == key).expect("key").value
        }
        _ => panic!("not an object"),
    }
}

fn as_text(detail: &AuditDetail) -> &str {
    match detail {
        AuditDetail::String(s) => s.as_str(),
        _ => panic!("not a string"),
    }
}

fn sample_document() -> BackupDocument {
    BackupDocument {
        schema_version: BACKUP_SCHEMA_VERSION,
        exported_at: "2026-06-24T12:00:00Z".to_string(),
        sensitivity: BackupSensitivity::default(),
        sites: vec![],
        tags: vec![],
        devices: vec![],
        device_tags: vec![],
        server_config: None,
        enrollment_tokens: vec![],
        users: vec![BackupUser {
            user_uuid: uuid::Uuid::new_v4().as_u128(),
            username: "admin".to_string(),
            password_hash: "hash".to_string(),
            role: "admin".to_string(),
        }],
    }
}

#[test]
fn redact_audit_detail_masks_sensitive_keys() {
    let detail = AuditDetail::Object(vec![
        entry("username", text("admin")),
        entry("enrollment_token", text("secret-value")),
        entry("nested", AuditDetail::Object(vec![entry("password_hash", text("abc"))])),
    ]);
    let redacted = redact_audit_detail(&detail);
    assert_eq!(as_text(field(&redacted, "username")), "admin");
    assert_eq!(as_text(field(&redacted, "enrollment_token")), "[redacted]");
    assert_eq!(as_text(field(field(&redacted, "nested"), "password_hash")), "[redacted]");
}

#[test]
fn redaction_reaches_into_arrays_and_ignores_case() {
    let detail = AuditDetail::Array(vec![
        AuditDetail::Object(vec![
            entry("API_KEY", AuditDetail::Number("5".to_string())),
            entry("note", AuditDetail::Bool(true)),
        ]),
        AuditDetail::Null,
    ]);
    let redacted = redact_audit_detail(&detail);
    match &redacted {
        AuditDetail::Array(items) => {
            assert_eq!(items.len(), 2);
            assert_eq!(as_text(field(&items[0], "API_KEY")), REDACTED);
            assert!(matches!(field(&items[0], "note"), AuditDetail::Bool(true)));
            assert!(matches!(items[1], AuditDetail::Null));
        }
        _ => panic!("not an array"),
    }
}

#[test]
fn success_audit_and_stored_detail() {
    let draft = success_audit(Some(3), "device_create", "device", Some(4), "web");
    assert_eq!(draft.actor_user_uuid, Some(3));
    assert_eq!(draft.action, "device_create");
    assert_eq!(draft.object_type, "device");
    assert_eq!(draft.object_uuid, Some(4));
    assert_eq!(draft.outcome, "success");
    assert_eq!(draft.source, "web");
    assert!(stored_audit_detail(&draft).is_none());
    let with_detail = AuditEventDraft {
        detail: Some(AuditDetail::Object(vec![entry("secret", text("x"))])),
        ..draft
    };
    let stored = stored_audit_detail(&with_detail).expect("detail");
    assert_eq!(as_text(field(&stored, "secret")), REDACTED);
}

#[test]
fn validate_backup_document_rejects_unknown_schema() {
    let mut document = sample_document();
    document.schema_version = 99;
    assert_eq!(
        validate_backup_document(&document),
        Err(BackupValidationError::UnsupportedSchemaVersion)
    );
}

#[test]
fn validate_backup_document_requires_a_user() {
    let mut document = sample_document();
    assert_eq!(validate_backup_document(&document), Ok(()));
    document.users.clear();
    assert_eq!(validate_backup_document(&document), Err(BackupValidationError::EmptyUsers));
    assert_eq!(restore_plan(&document), Err(BackupValidationError::EmptyUsers));
    assert_eq!(
        BackupValidationError::EmptyUsers.message(),
        "backup must include at least one user"
    );
}

#[test]
fn default_sensitivity_flags_everything() {
    let s = BackupSensitivity::default();
    assert!(s.contains_password_hashes);
    assert!(s.contains_enrollment_token_hashes);
    assert!(s.excludes_sessions);
    assert!(s.excludes_audit_events);
    assert!(s.excludes_endpoint_checkins);
}

#[test]
fn restore_plan_clears_then_inserts_every_entry() {
    let mut document = sample_document();
    document.sites = vec![
        Site { site_uuid: 1, name: "A".to_string() },
        Site { site_uuid: 2, name: "B".to_string() },
    ];
    document.server_config = Some(default_server_config());
    let steps = restore_plan(&document).expect("plan");
    let expected = vec![
        RestoreStep::Clear(RestoreTable::DeviceTags),
        RestoreStep::Clear(RestoreTable::EndpointCheckins),
        RestoreStep::Clear(RestoreTable::Devices),
        RestoreStep::Clear(RestoreTable::EnrollmentTokens),
        RestoreStep::Clear(RestoreTable::Tags),
        RestoreStep::Clear(RestoreTable::Sites),
        RestoreStep::Clear(RestoreTable::ServerConfigs),
        RestoreStep::Clear(RestoreTable::Sessions),
        RestoreStep::Clear(RestoreTable::Users),
        RestoreStep::InsertSite(0),
        RestoreStep::InsertSite(1),
        RestoreStep::InsertServerConfig,
        RestoreStep::InsertUser(0),
    ];
    assert_eq!(steps, expected);
}

#[test]
fn assembled_backup_writes_token_times_and_links() {
    let expires = parse_timestamp("2026-12-31T00:00:00Z").expect("time");
    let token = EnrollmentTokenRecord {
        enrollment_token_uuid: 5,
        token_hash: "abc".to_string(),
        label: "lab".to_string(),
        site_uuid: Some(1),
        expires_at: Some(expires),
        revoked_at: None,
    };
    let entry = backup_enrollment_token_of(&token);
    assert_eq!(entry.expires_at.as_deref(), Some("2026-12-31T00:00:00Z"));
    assert_eq!(entry.revoked_at, None);
    let now = parse_timestamp("2026-06-24T12:00:00Z").expect("time");
    let users = sample_document().users;
    let document = assemble_backup_document(
        now,
        vec![],
        vec![],
        vec![],
        &vec![(10, 20)],
        None,
        &vec![token],
        users.clone(),
    );
    assert_eq!(document.schema_version, BACKUP_SCHEMA_VERSION);
    assert_eq!(document.exported_at, "2026-06-24T12:00:00Z");
    assert_eq!(document.device_tags.len(), 1);
    assert_eq!(document.device_tags[0].device_uuid, 10);
    assert_eq!(document.device_tags[0].tag_uuid, 20);
    assert_eq!(document.enrollment_tokens, vec![entry]);
    assert_eq!(document.users, users);
    assert_eq!(validate_backup_document(&document), Ok(()));
}

#[test]
fn restore_needs_the_confirmation_box() {
    assert!(restore_confirmed(Some("yes")));
    assert!(!restore_confirmed(Some("Yes")));
    assert!(!restore_confirmed(Some("")));
    assert!(!restore_confirmed(None));
}

#[test]
fn exported_document_restores_every_row_in_order() {
    let now = parse_timestamp("2026-06-24T12:00:00Z").expect("time");
    let sites = vec![Site { site_uuid: 1, name: "A".to_string() }];
    let users = sample_document().users;
    let document = assemble_backup_document(now, sites.clone(), vec![], vec![], &vec![(3, 4)], None, &vec![], users.clone());
    let steps = restore_plan(&document).expect("plan");
    assert_eq!(steps.len(), 9 + 1 + 1 + 1);
    assert_eq!(steps[9], RestoreStep::InsertSite(0));
    assert_eq!(steps[10], RestoreStep::InsertDeviceTag(0));
    assert_eq!(steps[11], RestoreStep::InsertUser(0));
    assert_eq!(document.sites, sites);
    assert_eq!(document.users, users);
}
