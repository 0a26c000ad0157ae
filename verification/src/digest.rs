//! SHA-256 digests of downloaded content and their comparison with a
//! declared checksum.

use crate::hex::{to_hex, to_hex_lower};
use sha2::Digest;
use vstd::prelude::*;
use vstd::string::StringExecFns;

verus! {

/// The SHA-256 digest of `data`, as the `sha2` crate computes it.
pub uninterp spec fn sha256(data: Seq<u8>) -> Seq<u8>;

/// Calls `sha2::Sha256::digest` (the `Digest::digest` of the `digest` crate),
/// which hashes the whole of `data` in one go and returns the digest as a
/// fixed array. Trusted: the bytes returned are the SHA-256 digest of `data`,
/// a function of the input alone.
#[verifier::external_body]
pub(crate) fn sha256_digest(data: &[u8]) -> (out: Vec<u8>)
    ensures
        out@ == sha256(data@),
{
    sha2::Sha256::digest(data).to_vec()
}

/// The checksum text of `data`: its SHA-256 digest in lowercase hexadecimal.
pub open spec fn checksum_of(data: Seq<u8>) -> Seq<char> {
    to_hex(sha256(data))
}

/// Whether a digest, written in lowercase hexadecimal, is the text `expected`.
pub open spec fn digest_matches_spec(digest: Seq<u8>, expected: Seq<char>) -> bool {
    to_hex(digest) == expected
}

/// Compares a digest with a declared checksum. The comparison is exact: a
/// checksum in upper case, or with blanks around it, does not match.
pub fn digest_matches(digest: &[u8], expected: &str) -> (same: bool)
    ensures
        same == digest_matches_spec(digest@, expected@),
{
    let actual = to_hex_lower(digest);
    let wanted = String::from_str(expected);
    actual == wanted
}

/// Computes the checksum text of `data`.
pub fn sha256_hex(data: &[u8]) -> (text: String)
    ensures
        text@ == checksum_of(data@),
{
    let digest = sha256_digest(data);
    to_hex_lower(digest.as_slice())
}

/// Whether `data` has the declared checksum.
pub fn content_matches(data: &[u8], expected: &str) -> (same: bool)
    ensures
        same == (checksum_of(data@) == expected@),
{
    let digest = sha256_digest(data);
    digest_matches(digest.as_slice(), expected)
}

} // verus!
