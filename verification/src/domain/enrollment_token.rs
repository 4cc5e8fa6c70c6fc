use vstd::prelude::*;

use crate::digest;
use crate::text;
use crate::time_format::Timestamp;

verus! {

/// How many random bytes an enrollment token holds.
pub const ENROLLMENT_TOKEN_BYTES: usize = 32;

/// A stored enrollment token: only the hash of its value is kept.
#[derive(Debug, Clone, PartialEq, Eq)]
pub struct EnrollmentTokenRecord {
    pub enrollment_token_uuid: u128,
    pub token_hash: String,
    pub label: String,
    pub site_uuid: Option<u128>,
    pub expires_at: Option<Timestamp>,
    pub revoked_at: Option<Timestamp>,
}

#[derive(Debug, Clone, Copy, PartialEq, Eq)]
pub enum EnrollmentTokenError {
    EmptyLabel,
    Expired,
    Revoked,
    Invalid,
}

impl EnrollmentTokenError {
    /// The message shown to the operator.
    pub fn message(&self) -> (r: &'static str)
        ensures
            r@ == match self {
                EnrollmentTokenError::EmptyLabel => "enrollment token label must not be empty"@,
                EnrollmentTokenError::Expired => "enrollment token has expired"@,
                EnrollmentTokenError::Revoked => "enrollment token has been revoked"@,
                EnrollmentTokenError::Invalid => "enrollment token is invalid"@,
            },
    {
        match self {
            EnrollmentTokenError::EmptyLabel => "enrollment token label must not be empty",
            EnrollmentTokenError::Expired => "enrollment token has expired",
            EnrollmentTokenError::Revoked => "enrollment token has been revoked",
            EnrollmentTokenError::Invalid => "enrollment token is invalid",
        }
    }
}

/// A new token value: the lower-case hexadecimal text of 32 random bytes.
pub fn generate_enrollment_token_value() -> (r: String)
    ensures
        exists|bytes: Seq<u8>| bytes.len() == ENROLLMENT_TOKEN_BYTES && r@ == digest::hex_text(bytes),
{
    let bytes = digest::random_32_bytes();
    let r = digest::hex_encode(&bytes);
    assert(bytes@.len() == ENROLLMENT_TOKEN_BYTES);
    r
}

/// The stored hash of a token value: the hexadecimal SHA-256 digest of its UTF-8 bytes.
pub open spec fn token_hash_of(value: Seq<char>) -> Seq<char> {
    digest::hex_text(digest::sha256_of(vstd::utf8::encode_utf8(value)))
}

pub fn hash_enrollment_token_value(value: &str) -> (r: String)
    ensures
        r@ == token_hash_of(value@),
{
    let d = digest::sha256(value.as_bytes());
    digest::hex_encode(d.as_slice())
}

pub fn validate_enrollment_token_label(label: &str) -> (r: Result<(), EnrollmentTokenError>)
    ensures
        r == (if text::trim(label@).len() == 0 {
            Err(EnrollmentTokenError::EmptyLabel)
        } else {
            Ok(())
        }),
{
    if text::trimmed_chars(label).len() == 0 {
        return Err(EnrollmentTokenError::EmptyLabel);
    }
    Ok(())
}

/// Whether a token may be used at `now`: a revoked token never, an expiring
/// one only strictly before its expiry.
pub open spec fn token_activity(record: EnrollmentTokenRecord, now: Timestamp) -> Result<
    (),
    EnrollmentTokenError,
> {
    if record.revoked_at is Some {
        Err(EnrollmentTokenError::Revoked)
    } else if record.expires_at is Some && now.unix_nanos >= record.expires_at->0.unix_nanos {
        Err(EnrollmentTokenError::Expired)
    } else {
        Ok(())
    }
}

pub fn enrollment_token_is_active(record: &EnrollmentTokenRecord, now: Timestamp) -> (r: Result<
    (),
    EnrollmentTokenError,
>)
    ensures
        r == token_activity(*record, now),
{
    if record.revoked_at.is_some() {
        return Err(EnrollmentTokenError::Revoked);
    }
    if let Some(expires_at) = record.expires_at {
        if now.unix_nanos >= expires_at.unix_nanos {
            return Err(EnrollmentTokenError::Expired);
        }
    }
    Ok(())
}

/// The verdict on a presented token whose hash is `provided_hash`: an unusable
/// token is refused first, then a hash that differs from the stored one.
pub open spec fn token_verdict(
    record: EnrollmentTokenRecord,
    provided_hash: Seq<char>,
    now: Timestamp,
) -> Result<(), EnrollmentTokenError> {
    match token_activity(record, now) {
        Err(e) => Err(e),
        Ok(()) => if provided_hash == record.token_hash@ {
            Ok(())
        } else {
            Err(EnrollmentTokenError::Invalid)
        },
    }
}

/// Checks a presented token against its record, given the hash of the presented value.
pub fn check_enrollment_token_hash(
    record: &EnrollmentTokenRecord,
    provided_hash: &String,
    now: Timestamp,
) -> (r: Result<(), EnrollmentTokenError>)
    ensures
        r == token_verdict(*record, provided_hash@, now),
{
    enrollment_token_is_active(record, now)?;
    if *provided_hash != record.token_hash {
        return Err(EnrollmentTokenError::Invalid);
    }
    Ok(())
}

pub fn verify_enrollment_token_value(
    record: &EnrollmentTokenRecord,
    provided_value: &str,
    now: Timestamp,
) -> (r: Result<(), EnrollmentTokenError>)
    ensures
        r == token_verdict(*record, token_hash_of(provided_value@), now),
{
    enrollment_token_is_active(record, now)?;
    let provided_hash = hash_enrollment_token_value(provided_value);
    check_enrollment_token_hash(record, &provided_hash, now)
}

/// A token just made: what is stored of it, and the value handed once to the operator.
#[derive(Debug, Clone, PartialEq, Eq)]
pub struct CreatedEnrollmentToken {
    pub record: EnrollmentTokenRecord,
    pub token_value: String,
}

/// Makes a token: a random identifier (a version 4 UUID), a fresh random
/// value, and a record that keeps only the hash of that value, never revoked.
pub fn new_enrollment_token(label: &str, site_uuid: Option<u128>, expires_at: Option<Timestamp>) -> (r:
    CreatedEnrollmentToken)
    ensures
        r.record.token_hash@ == token_hash_of(r.token_value@),
        exists|bytes: Seq<u8>|
            bytes.len() == ENROLLMENT_TOKEN_BYTES && r.token_value@ == digest::hex_text(bytes),
        r.record.enrollment_token_uuid & 0xF000_C000_0000_0000_0000u128 == 0x4000_8000_0000_0000_0000u128,
        r.record.label@ == label@,
        r.record.site_uuid == site_uuid,
        r.record.expires_at == expires_at,
        r.record.revoked_at is None,
{
    let enrollment_token_uuid = crate::ids::random_uuid();
    let token_value = generate_enrollment_token_value();
    let token_hash = hash_enrollment_token_value(token_value.as_str());
    CreatedEnrollmentToken {
        record: EnrollmentTokenRecord {
            enrollment_token_uuid,
            token_hash,
            label: String::from_str(label),
            site_uuid,
            expires_at,
            revoked_at: None,
        },
        token_value,
    }
}

/// A token accepts the value it was created from for as long as it is active,
/// and a revoked token is refused whatever value is presented.
pub proof fn lemma_token_accepts_own_value(
    record: EnrollmentTokenRecord,
    value: Seq<char>,
    other: Seq<char>,
    now: Timestamp,
)
    requires
        record.token_hash@ == token_hash_of(value),
    ensures
        token_activity(record, now) is Ok ==> token_verdict(record, token_hash_of(value), now) is Ok,
        record.revoked_at is Some ==> token_verdict(record, token_hash_of(other), now) == Err::<
            (),
            EnrollmentTokenError,
        >(EnrollmentTokenError::Revoked),
{
}

} // verus!
