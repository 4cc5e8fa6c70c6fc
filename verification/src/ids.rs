use uuid::Uuid;
use vstd::prelude::*;

verus! {

/// The lower-case hexadecimal digit for `d` (0 to 15).
pub open spec fn hex_digit(d: int) -> char {
    if d < 10 {
        (d + 48) as char
    } else {
        (d + 87) as char
    }
}

/// The `k`-th hexadecimal digit (0 is the most significant) of a 128-bit value.
pub open spec fn nibble(v: u128, k: int) -> int {
    (v as int / vstd::arithmetic::power::pow(16, (31 - k) as nat)) % 16
}

/// How many hyphens the hyphenated form holds before position `i`.
pub open spec fn hyphens_before(i: int) -> int {
    if i <= 8 {
        0
    } else if i <= 13 {
        1
    } else if i <= 18 {
        2
    } else if i <= 23 {
        3
    } else {
        4
    }
}

/// The hyphenated lower-case text of a UUID, such as
/// `550e8400-e29b-41d4-a716-446655440000`: 32 hexadecimal digits, most
/// significant first, in groups of 8, 4, 4, 4 and 12.
pub open spec fn uuid_text(v: u128) -> Seq<char> {
    Seq::new(
        36,
        |i: int|
            if i == 8 || i == 13 || i == 18 || i == 23 {
                '-'
            } else {
                hex_digit(nibble(v, i - hyphens_before(i)))
            },
    )
}

/// The UUID that `Uuid::parse_str` reads from a text, or none when it rejects it.
pub uninterp spec fn uuid_parsed(text: Seq<char>) -> Option<u128>;

/// `Uuid::from_u128(v).to_string()`: the uuid crate displays a UUID in its
/// hyphenated lower-case form, and `Uuid::parse_str` reads that form back.
#[verifier::external_body]
pub(crate) fn uuid_to_string(v: u128) -> (r: String)
    ensures
        r@ == uuid_text(v),
        uuid_parsed(r@) == Some(v),
{
    Uuid::from_u128(v).to_string()
}

/// `Uuid::parse_str`, with the UUID taken as its 128-bit value.
#[verifier::external_body]
pub(crate) fn parse_uuid(text: &str) -> (r: Option<u128>)
    ensures
        r == uuid_parsed(text@),
{
    match Uuid::parse_str(text) {
        Ok(u) => Some(u.as_u128()),
        Err(_) => None,
    }
}

/// `Uuid::new_v4`: a random UUID whose version digit is 4 and whose
/// variant bits are those of RFC 4122 (`10`).
#[verifier::external_body]
pub(crate) fn random_uuid() -> (r: u128)
    ensures
        r & 0xF000_C000_0000_0000_0000u128 == 0x4000_8000_0000_0000_0000u128,
{
    Uuid::new_v4().as_u128()
}

} // verus!
