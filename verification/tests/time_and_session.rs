use opendesk::domain::session::{new_session_uuid, session_expires_at, session_is_valid, SessionRow};
use opendesk::http::session::{
    admit_session, is_form_post, session_uuid_from_cookie, SessionAdmission, SESSION_COOKIE_NAME,
};
use opendesk::time_format::{
    format_last_checkin_display, format_timestamp, parse_timestamp, Timestamp,
};

fn at(text: &str) -> Timestamp {
    parse_timestamp(text).expect("timestamp")
}

#[test]
fn session_expires_24_hours_after_creation() {
    let now = at("2026-06-23T12:00:00Z");
    let expires = session_expires_at(now);
    assert_eq!(expires, at("2026-06-24T12:00:00Z"));
}

#[test]
fn session_validity_respects_expiry() {
    let expires = at("2026-06-24T12:00:00Z");
    assert!(session_is_valid(expires, at("2026-06-23T12:00:00Z")));
    assert!(!session_is_valid(expires, at("2026-06-24T12:00:01Z")));
}

#[test]
fn format_and_parse_timestamp_round_trip() {
    let value = at("2026-06-23T12:00:00Z");
    let formatted = format_timestamp(value);
    let parsed = parse_timestamp(&formatted).expect("parse");
    assert_eq!(parsed, value);
}

#[test]
fn parse_timestamp_reads_instant_and_offset() {
    let utc = at("2026-06-23T12:00:00Z");
    assert_eq!(utc.unix_nanos, 1_782_216_000i128 * 1_000_000_000);
    assert_eq!(utc.offset_seconds, 0);
    let shifted = at("2026-06-23T14:00:00+02:00");
    assert_eq!(shifted.unix_nanos, utc.unix_nanos);
    assert_eq!(shifted.offset_seconds, 7200);
    assert_eq!(parse_timestamp("not a time"), None);
}

#[test]
fn format_timestamp_writes_rfc3339() {
    assert_eq!(format_timestamp(at("2026-06-23T12:00:00Z")), "2026-06-23T12:00:00Z");
    assert_eq!(
        format_timestamp(at("2026-06-23T14:00:00+02:00")),
        "2026-06-23T14:00:00+02:00"
    );
}

#[test]
fn last_checkin_display_normalizes_or_dashes() {
    assert_eq!(format_last_checkin_display(None), "-");
    assert_eq!(format_last_checkin_display(Some("garbage")), "-");
    assert_eq!(
        format_last_checkin_display(Some("2026-06-24T12:00:00Z")),
        "2026-06-24T12:00:00Z"
    );
}

#[test]
fn session_lasts_exactly_a_day() {
    let start = at("2026-06-23T12:00:00Z");
    let expires = session_expires_at(start);
    assert!(session_is_valid(expires, start));
    assert!(session_is_valid(expires, at("2026-06-24T11:59:59Z")));
    assert!(!session_is_valid(expires, at("2026-06-24T12:00:00Z")));
}

#[test]
fn new_session_uuid_is_version_4() {
    let a = new_session_uuid();
    assert_eq!((a >> 76) & 0xF, 4);
    assert_eq!((a >> 62) & 0x3, 2);
    assert_ne!(a, new_session_uuid());
}

#[test]
fn session_admission_follows_expiry() {
    let row = SessionRow {
        session_uuid: 7,
        user_uuid: 9,
        expires_at: at("2026-06-24T12:00:00Z"),
    };
    assert_eq!(admit_session(None, at("2026-06-23T12:00:00Z")), SessionAdmission::SignIn);
    assert_eq!(
        admit_session(Some(row), at("2026-06-23T12:00:00Z")),
        SessionAdmission::LoadUser(9)
    );
    assert_eq!(
        admit_session(Some(row), at("2026-06-24T12:00:00Z")),
        SessionAdmission::EndExpired(7)
    );
}

#[test]
fn session_cookie_must_hold_a_uuid() {
    assert_eq!(SESSION_COOKIE_NAME, "opendesk_session");
    assert_eq!(
        session_uuid_from_cookie(Some("550e8400-e29b-41d4-a716-446655440000")),
        Some(0x550e8400_e29b_41d4_a716_446655440000u128)
    );
    assert_eq!(session_uuid_from_cookie(Some("nope")), None);
    assert_eq!(session_uuid_from_cookie(None), None);
}

#[test]
fn form_posts_are_recognized_by_content_type() {
    assert!(is_form_post(Some("application/x-www-form-urlencoded")));
    assert!(is_form_post(Some("application/x-www-form-urlencoded; charset=utf-8")));
    assert!(!is_form_post(Some("application/json")));
    assert!(!is_form_post(None));
}

#[test]
fn late_local_time_with_negative_offset_is_written_back() {
    let text = "9999-12-31T23:59:59-23:59";
    let t = at(text);
    assert_eq!(t.offset_seconds, -(23 * 3600 + 59 * 60));
    assert_eq!(format_timestamp(t), text);
    assert_eq!(format_last_checkin_display(Some(text)), text);
    let shown = format_last_checkin_display(Some("2026-06-24T12:00:00.5+02:00"));
    assert_eq!(shown, "2026-06-24T12:00:00.5+02:00");
    assert_eq!(format_last_checkin_display(Some(&shown)), shown);
}

#[test]
fn timestamp_outside_rfc3339_years_falls_back_to_unix_seconds() {
    let t = Timestamp {
        unix_nanos: -62_167_219_200_000_000_000 - 1_000_000_000,
        offset_seconds: 0,
    };
    assert_eq!(format_timestamp(t), "-62167219201");
}

#[test]
fn checked_session_expiry_and_range() {
    let now = at("2026-06-23T12:00:00Z");
    assert_eq!(opendesk::domain::session::checked_session_expiry(now), Some(at("2026-06-24T12:00:00Z")));
    let last = at("9999-12-31T12:00:00Z");
    assert_eq!(opendesk::domain::session::checked_session_expiry(last), None);
    assert!(opendesk::time_format::timestamp_in_range(now));
    let far = Timestamp { unix_nanos: i128::MAX, offset_seconds: 3600 };
    assert!(!opendesk::time_format::timestamp_in_range(far));
    let bad_offset = Timestamp { unix_nanos: 0, offset_seconds: 100_000 };
    assert!(!opendesk::time_format::timestamp_in_range(bad_offset));
}
