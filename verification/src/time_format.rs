use time::format_description::well_known::Rfc3339;
use time::{OffsetDateTime, UtcOffset};
use vstd::prelude::*;

use crate::text;

verus! {

/// An instant with the UTC offset it is written in: the nanoseconds since
/// 1970-01-01T00:00:00Z and the offset in seconds east of UTC.
#[derive(Debug, Clone, Copy, PartialEq, Eq)]
pub struct Timestamp {
    pub unix_nanos: i128,
    pub offset_seconds: i32,
}

/// Nanoseconds in a second.
pub const NANOS_PER_SECOND: i128 = 1_000_000_000;

/// The first instant the time crate holds: -9999-01-01T00:00:00.
pub const MIN_LOCAL_NANOS: i128 = -377_705_116_800_000_000_000;

/// The last instant the time crate holds: 9999-12-31T23:59:59.999999999.
pub const MAX_LOCAL_NANOS: i128 = 253_402_300_799_999_999_999;

/// The first instant RFC 3339 writes: 0000-01-01T00:00:00.
pub const RFC3339_MIN_LOCAL_NANOS: i128 = -62_167_219_200_000_000_000;

/// The wall-clock time of the timestamp, as nanoseconds counted as if it were UTC.
pub open spec fn local_nanos(t: Timestamp) -> int {
    t.unix_nanos + t.offset_seconds * NANOS_PER_SECOND
}

/// A timestamp the time crate can hold: an offset of less than 26 hours and a
/// wall-clock time within years -9999 to 9999.
pub open spec fn in_range(t: Timestamp) -> bool {
    &&& -93599 <= t.offset_seconds <= 93599
    &&& MIN_LOCAL_NANOS <= local_nanos(t) <= MAX_LOCAL_NANOS
}

/// Whether the time crate can hold the timestamp (what `format_timestamp` needs).
pub fn timestamp_in_range(t: Timestamp) -> (r: bool)
    ensures
        r == in_range(t),
{
    if t.offset_seconds < -93599 || t.offset_seconds > 93599 {
        return false;
    }
    let shift: i128 = (t.offset_seconds as i128) * NANOS_PER_SECOND;
    match t.unix_nanos.checked_add(shift) {
        Some(local) => MIN_LOCAL_NANOS <= local && local <= MAX_LOCAL_NANOS,
        None => false,
    }
}

/// What `OffsetDateTime::parse(text, &Rfc3339)` reads: the instant (Unix
/// nanoseconds) and the offset.
pub uninterp spec fn rfc3339_read(text: Seq<char>) -> Option<(i128, i32)>;

/// What the time crate writes in RFC 3339 for the wall-clock time `local_nanos`
/// (nanoseconds counted as if it were UTC) at the offset `offset_seconds`, or
/// none when it refuses to.
pub uninterp spec fn rfc3339_text(local_nanos: i128, offset_seconds: i32) -> Option<Seq<char>>;

/// What RFC 3339 can write: a wall-clock time in the years 0000 to 9999 and an
/// offset of whole minutes, less than 24 hours.
pub open spec fn rfc3339_writable(local: int, offset_seconds: i32) -> bool {
    &&& -86399 <= offset_seconds <= 86399
    &&& offset_seconds % 60 == 0
    &&& RFC3339_MIN_LOCAL_NANOS <= local <= MAX_LOCAL_NANOS
}

/// `OffsetDateTime::parse` with the RFC 3339 description. The parser reads a
/// four-digit year, an offset of hours below 24 and whole minutes, and keeps
/// the wall-clock time with the offset, so what it reads is writable again
/// (the instant itself may fall outside those years).
#[verifier::external_body]
pub fn parse_timestamp(value: &str) -> (r: Option<Timestamp>)
    ensures
        r == match rfc3339_read(value@) {
            Some((n, o)) => Some(Timestamp { unix_nanos: n, offset_seconds: o }),
            None => None,
        },
        r matches Some(t) ==> rfc3339_writable(local_nanos(t), t.offset_seconds),
{
    match OffsetDateTime::parse(value, &Rfc3339) {
        Ok(t) => Some(
            Timestamp { unix_nanos: t.unix_timestamp_nanos(), offset_seconds: t.offset().whole_seconds() },
        ),
        Err(_) => None,
    }
}

/// `OffsetDateTime::format` with the RFC 3339 description, of the wall-clock
/// time `local_nanos` (built with `from_unix_timestamp_nanos` and given the
/// offset with `replace_offset`, which keeps the wall-clock time). The time
/// crate writes exactly when the year is 0000 to 9999, the offset hours are
/// below 24 and the offset has no seconds; what it writes parses back to the
/// same wall-clock time and offset.
#[verifier::external_body]
fn format_rfc3339(local_nanos: i128, offset_seconds: i32) -> (r: Option<String>)
    requires
        MIN_LOCAL_NANOS <= local_nanos <= MAX_LOCAL_NANOS,
        -93599 <= offset_seconds <= 93599,
    ensures
        r.deep_view() == rfc3339_text(local_nanos, offset_seconds),
        r is Some <==> rfc3339_writable(local_nanos as int, offset_seconds),
        r matches Some(s) ==> rfc3339_read(s@) == Some(
            ((local_nanos - offset_seconds * NANOS_PER_SECOND) as i128, offset_seconds),
        ),
{
    let wall = match OffsetDateTime::from_unix_timestamp_nanos(local_nanos) {
        Ok(wall) => wall,
        Err(_) => return None,
    };
    let offset = match UtcOffset::from_whole_seconds(offset_seconds) {
        Ok(offset) => offset,
        Err(_) => return None,
    };
    wall.replace_offset(offset).format(&Rfc3339).ok()
}

/// `OffsetDateTime::now_utc`: the current instant, at UTC.
#[verifier::external_body]
pub(crate) fn now_utc() -> (r: Timestamp)
    ensures
        r.offset_seconds == 0,
        MIN_LOCAL_NANOS <= r.unix_nanos <= MAX_LOCAL_NANOS,
{
    Timestamp { unix_nanos: OffsetDateTime::now_utc().unix_timestamp_nanos(), offset_seconds: 0 }
}

/// The whole seconds since the epoch, rounded down (`OffsetDateTime::unix_timestamp`).
pub open spec fn unix_seconds(unix_nanos: i128) -> int {
    unix_nanos as int / NANOS_PER_SECOND as int
}

proof fn lemma_floor_div_negative(m: int, d: int)
    by (nonlinear_arith)
    requires
        m > 0,
        d > 0,
    ensures
        -((m + d - 1) / d) == (-m) / d,
{
    let q = (m + d - 1) / d;
    let r = (m + d - 1) % d;
    assert(m + d - 1 == d * q + r);
    assert(-m == d * (-q) + (d - 1 - r));
    assert(0 <= d - 1 - r < d);
}

fn unix_seconds_of(unix_nanos: i128) -> (r: i64)
    requires
        MIN_LOCAL_NANOS - 93599 * NANOS_PER_SECOND <= unix_nanos <= MAX_LOCAL_NANOS + 93599
            * NANOS_PER_SECOND,
    ensures
        r == unix_seconds(unix_nanos),
{
    if unix_nanos >= 0 {
        ((unix_nanos as u128) / 1_000_000_000u128) as i64
    } else {
        let m: u128 = (-unix_nanos) as u128;
        let q: u128 = (m + 999_999_999u128) / 1_000_000_000u128;
        proof {
            lemma_floor_div_negative(m as int, 1_000_000_000);
        }
        -(q as i64)
    }
}

/// What `format_timestamp` writes: the RFC 3339 text, or, when the time crate
/// refuses to write one, the decimal Unix time in seconds.
pub open spec fn timestamp_text(t: Timestamp) -> Seq<char> {
    match rfc3339_text(local_nanos(t) as i128, t.offset_seconds) {
        Some(s) => s,
        None => text::signed_decimal(unix_seconds(t.unix_nanos)),
    }
}

pub fn format_timestamp(value: Timestamp) -> (r: String)
    requires
        in_range(value),
    ensures
        r@ == timestamp_text(value),
        rfc3339_writable(local_nanos(value), value.offset_seconds) ==> rfc3339_read(r@) == Some(
            (value.unix_nanos, value.offset_seconds),
        ),
{
    let local: i128 = value.unix_nanos + (value.offset_seconds as i128) * NANOS_PER_SECOND;
    match format_rfc3339(local, value.offset_seconds) {
        Some(s) => s,
        None => text::i64_to_decimal(unix_seconds_of(value.unix_nanos)),
    }
}

/// The last check-in cell: a stored RFC 3339 time written back in RFC 3339,
/// or "-" when there is none or it does not parse.
pub open spec fn last_checkin_display(value: Option<Seq<char>>) -> Seq<char> {
    match value {
        Some(s) => match rfc3339_read(s) {
            Some((n, o)) => timestamp_text(Timestamp { unix_nanos: n, offset_seconds: o }),
            None => "-"@,
        },
        None => "-"@,
    }
}

pub fn format_last_checkin_display(value: Option<&str>) -> (r: String)
    ensures
        r@ == last_checkin_display(crate::domain::device::opt_str(value)),
        match value {
            Some(s) => rfc3339_read(s@) is Some ==> {
                &&& rfc3339_read(r@) == rfc3339_read(s@)
                &&& last_checkin_display(Some(r@)) == r@
            },
            None => true,
        },
{
    match value {
        Some(s) => match parse_timestamp(s) {
            Some(t) => format_timestamp(t),
            None => String::from_str("-"),
        },
        None => String::from_str("-"),
    }
}

} // verus!
