use sha2::{Digest, Sha256};
use vstd::prelude::*;

verus! {

/// The lower-case hexadecimal text of bytes: two digits per byte, high digit first.
pub open spec fn hex_text(data: Seq<u8>) -> Seq<char> {
    Seq::new(
        2 * data.len(),
        |i: int|
            if i % 2 == 0 {
                crate::ids::hex_digit(data[i / 2] as int / 16)
            } else {
                crate::ids::hex_digit(data[i / 2] as int % 16)
            },
    )
}

/// The SHA-256 digest of the data.
pub uninterp spec fn sha256_of(data: Seq<u8>) -> Seq<u8>;

/// `Sha256::digest`: the 32-byte SHA-256 digest of the data.
#[verifier::external_body]
pub(crate) fn sha256(data: &[u8]) -> (r: Vec<u8>)
    ensures
        r@ == sha256_of(data@),
        r@.len() == 32,
{
    Sha256::digest(data).to_vec()
}

/// `hex::encode`: the lower-case hexadecimal text of the bytes.
#[verifier::external_body]
pub(crate) fn hex_encode(data: &[u8]) -> (r: String)
    ensures
        r@ == hex_text(data@),
{
    hex::encode(data)
}

/// `rand::random`: 32 bytes from the thread-local generator.
#[verifier::external_body]
pub(crate) fn random_32_bytes() -> (r: [u8; 32]) {
    rand::random::<[u8; 32]>()
}

} // verus!
