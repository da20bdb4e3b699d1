//! SHA-256, HMAC-SHA256 and lower-case hexadecimal text.
//!
//! The two hash functions are not computed here: their results are named, and
//! the rest of the crate reasons about those names.

use vstd::prelude::*;

verus! {

/// The length of a SHA-256 digest and of an HMAC-SHA256 tag, in bytes.
pub const DIGEST_BYTES: usize = 32;

/// The length of a digest or a tag in hexadecimal digits.
pub const DIGEST_DIGITS: usize = 64;

/// The SHA-256 digest of `data`, as `sha2` computes it.
pub uninterp spec fn sha256_digest(data: Seq<u8>) -> Seq<u8>;

/// The HMAC-SHA256 tag of `data` under `key`, as `hmac` computes it.
pub uninterp spec fn hmac_sha256_tag(key: Seq<u8>, data: Seq<u8>) -> Seq<u8>;

/// Calls `sha2::Sha256::digest` (the one-shot form of `Digest`).
///
/// Assumed, not proved: the result depends on the bytes of `data` alone, and
/// is 32 bytes long.
#[verifier::external_body]
pub(crate) fn sha256(data: &[u8]) -> (r: Vec<u8>)
    ensures
        r@ == sha256_digest(data@),
        r@.len() == DIGEST_BYTES,
{
    <sha2::Sha256 as sha2::Digest>::digest(data).to_vec()
}

/// Calls `hmac::Hmac::<sha2::Sha256>::new_from_slice`, then `update` and
/// `finalize` of `hmac::Mac`.
///
/// Assumed, not proved: a key of any length is accepted, the result depends
/// on the bytes of `key` and `data` alone, and is 32 bytes long.
#[verifier::external_body]
pub(crate) fn hmac_sha256(key: &[u8], data: &[u8]) -> (r: Vec<u8>)
    ensures
        r@ == hmac_sha256_tag(key@, data@),
        r@.len() == DIGEST_BYTES,
{
    let mut mac = <hmac::Hmac<sha2::Sha256> as hmac::Mac>::new_from_slice(key).unwrap();
    hmac::Mac::update(&mut mac, data);
    hmac::Mac::finalize(mac).into_bytes().to_vec()
}

/// The lower-case hexadecimal digit for `n` (`0 <= n <= 15`).
pub open spec fn hex_digit(n: int) -> char {
    seq!['0', '1', '2', '3', '4', '5', '6', '7', '8', '9', 'a', 'b', 'c', 'd', 'e', 'f'][n]
}

/// Lower-case hexadecimal text of `data`: two digits for each byte, the high
/// half first.
pub open spec fn hex_text(data: Seq<u8>) -> Seq<char> {
    Seq::new(
        2 * data.len(),
        |i: int|
            if i % 2 == 0 {
                hex_digit(data[i / 2] as int / 16)
            } else {
                hex_digit(data[i / 2] as int % 16)
            },
    )
}

/// Calls `hex::encode`.
///
/// Assumed, not proved: the result is the lower-case hexadecimal text of
/// `data`, two digits for each byte.
#[verifier::external_body]
pub(crate) fn hex_encode(data: &[u8]) -> (r: String)
    ensures
        r@ == hex_text(data@),
{
    hex::encode(data)
}

} // verus!
