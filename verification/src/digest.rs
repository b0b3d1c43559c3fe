//! The one-way digest (SHA-512) and the Base58 rendering of bytes.

use sha2::Digest;
use vstd::prelude::*;
use vstd::string::*;
use vstd::utf8::encode_utf8;

verus! {

/// Length in bytes of every digest.
pub const DIGEST_LEN: usize = 64;

/// The SHA-512 digest of a byte sequence.
pub uninterp spec fn sha512(data: Seq<u8>) -> Seq<u8>;

/// The Base58 rendering (Bitcoin alphabet) of a byte sequence.
pub uninterp spec fn base58(data: Seq<u8>) -> Seq<char>;

/// The digest of a text: the SHA-512 digest of its UTF-8 encoding.
pub open spec fn digest_of(text: Seq<char>) -> Seq<u8> {
    sha512(encode_utf8(text))
}

/// Calls `sha2::Sha512::digest` (the `Digest::digest` of the `digest` crate)
/// and copies the output array into a vector. Trusted: the output is the
/// SHA-512 digest of the input, a function of the input alone, and it is
/// always 64 bytes long (the output size of `Sha512` is `U64`).
#[verifier::external_body]
fn sha512_digest(data: &[u8]) -> (out: Vec<u8>)
    ensures
        out@ == sha512(data@),
        out@.len() == DIGEST_LEN,
{
    sha2::Sha512::digest(data).to_vec()
}

/// Calls `bs58::encode(..).into_string()`. Trusted: the output is the
/// Base58 rendering of the input in the default (Bitcoin) alphabet, a
/// function of the input alone; encoding into a fresh `String` cannot fail.
#[verifier::external_body]
fn base58_encode(data: &[u8]) -> (out: String)
    ensures
        out@ == base58(data@),
{
    bs58::encode(data).into_string()
}

/// Digests a text. The result is always `DIGEST_LEN` bytes long.
pub fn hash(data: String) -> (out: Vec<u8>)
    ensures
        out@ == digest_of(data@),
        out@.len() == DIGEST_LEN,
{
    sha512_digest(data.as_str().as_bytes())
}

/// Renders bytes in Base58.
pub fn bytes_to_base58(data: &[u8]) -> (out: String)
    ensures
        out@ == base58(data@),
{
    base58_encode(data)
}

/// Digesting is deterministic: two digests of the same text are the same
/// bytes.
pub proof fn lemma_digest_deterministic(text: Seq<char>, first: Seq<u8>, second: Seq<u8>)
    requires
        first == digest_of(text),
        second == digest_of(text),
    ensures
        first == second,
{
}

} // verus!
