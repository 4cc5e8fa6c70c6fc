use vstd::prelude::*;

use crate::time_format;
use crate::time_format::Timestamp;

verus! {

/// How long a login session lasts.
pub const SESSION_DURATION_HOURS: i64 = 24;

/// How long a login session lasts, in nanoseconds.
pub const SESSION_DURATION_NANOS: i128 = 86_400_000_000_000;

/// A fresh random session identifier (a version 4 UUID).
pub fn new_session_uuid() -> (r: u128)
    ensures
        r & 0xF000_C000_0000_0000_0000u128 == 0x4000_8000_0000_0000_0000u128,
{
    crate::ids::random_uuid()
}

/// The instant 24 hours after `now`, at the same offset.
pub open spec fn expiry_of(now: Timestamp) -> Timestamp {
    Timestamp { unix_nanos: (now.unix_nanos + SESSION_DURATION_NANOS) as i128, ..now }
}

/// A session that expires at `expires_at` is valid strictly before that instant.
pub open spec fn session_valid(expires_at: Timestamp, now: Timestamp) -> bool {
    now.unix_nanos < expires_at.unix_nanos
}

/// A stored login session.
#[derive(Debug, Clone, Copy, PartialEq, Eq)]
pub struct SessionRow {
    pub session_uuid: u128,
    pub user_uuid: u128,
    pub expires_at: Timestamp,
}

/// When a session started at `now` expires; adding 24 hours must stay within
/// the years the time crate holds.
pub fn session_expires_at(now: Timestamp) -> (r: Timestamp)
    requires
        time_format::in_range(now),
        time_format::local_nanos(now) + SESSION_DURATION_NANOS <= time_format::MAX_LOCAL_NANOS,
    ensures
        r == expiry_of(now),
        time_format::in_range(r),
{
    Timestamp { unix_nanos: now.unix_nanos + SESSION_DURATION_NANOS, offset_seconds: now.offset_seconds }
}

/// When a session started at `now` expires, or none when `now` is outside
/// the years the time crate holds or 24 hours later would be.
pub fn checked_session_expiry(now: Timestamp) -> (r: Option<Timestamp>)
    ensures
        r is Some <==> time_format::in_range(now) && time_format::local_nanos(now) + SESSION_DURATION_NANOS
            <= time_format::MAX_LOCAL_NANOS,
        r matches Some(e) ==> e == expiry_of(now) && time_format::in_range(e),
{
    if !time_format::timestamp_in_range(now) {
        return None;
    }
    let local: i128 = now.unix_nanos + (now.offset_seconds as i128) * time_format::NANOS_PER_SECOND;
    if local > time_format::MAX_LOCAL_NANOS - SESSION_DURATION_NANOS {
        return None;
    }
    Some(session_expires_at(now))
}

pub fn session_is_valid(expires_at: Timestamp, now: Timestamp) -> (r: bool)
    ensures
        r == session_valid(expires_at, now),
{
    now.unix_nanos < expires_at.unix_nanos
}

/// A session is valid when it starts and stays valid for exactly 24 hours:
/// it is valid at every instant before its expiry and at none from then on.
pub proof fn lemma_session_lasts_a_day(start: Timestamp, now: Timestamp)
    requires
        time_format::in_range(start),
        time_format::local_nanos(start) + SESSION_DURATION_NANOS <= time_format::MAX_LOCAL_NANOS,
    ensures
        session_valid(expiry_of(start), start),
        session_valid(expiry_of(start), now) <==> now.unix_nanos < start.unix_nanos
            + SESSION_DURATION_NANOS,
{
}

} // verus!
