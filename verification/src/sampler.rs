//! The nonce sampler: a random nonce below a bound, paired with the
//! lowercase hexadecimal digest of its decimal rendering.

use crate::digest::{digest_of, hash, DIGEST_LEN};
use crate::text::{decimal_of, hex_of, to_decimal, to_hex};
use rand::Rng;
use vstd::prelude::*;

verus! {

/// Number of characters of a digest rendered in hexadecimal.
pub const DIGEST_HEX_LEN: usize = 128;

/// The digest of a nonce as text: the digest of the nonce's decimal
/// rendering, in lowercase hexadecimal.
pub open spec fn nonce_digest(nonce: u64) -> Seq<char> {
    hex_of(digest_of(decimal_of(nonce as nat)))
}

/// Calls `rand::thread_rng().gen_range(0..=upper_bound)`. Trusted: the draw
/// lies in the inclusive range; the range is never empty, so the call does
/// not panic. Nothing else is claimed of the value.
#[verifier::external_body]
fn random_nonce(upper_bound: u64) -> (nonce: u64)
    ensures
        nonce <= upper_bound,
{
    rand::thread_rng().gen_range(0..=upper_bound)
}

/// The hexadecimal digest of a given nonce.
pub fn nonce_hash(nonce: u64) -> (hex: String)
    ensures
        hex@ == nonce_digest(nonce),
        hex@.len() == DIGEST_HEX_LEN,
{
    let digest = hash(to_decimal(nonce));
    to_hex(digest.as_slice())
}

/// Draws a nonce from `0..=difficulty` and returns it with its hexadecimal
/// digest. A bound of zero always yields the nonce zero.
pub fn get_nonce_hash_with_nonce(difficulty: u64) -> (sample: (String, u64))
    ensures
        sample.1 <= difficulty,
        sample.0@ == nonce_digest(sample.1),
        sample.0@.len() == DIGEST_HEX_LEN,
{
    let nonce = random_nonce(difficulty);
    (nonce_hash(nonce), nonce)
}

} // verus!
