//! The body of a download, gathered chunk by chunk and verified at its end.

use crate::digest::{checksum_of, digest_matches, digest_matches_spec, sha256_digest};
use crate::error::UpdateError;
use vstd::prelude::*;

verus! {

/// A download under way: the bytes received so far, in the order of their
/// arrival, and the size that the release declared for the whole.
#[derive(Debug, PartialEq, Eq)]
pub struct Download {
    received: Vec<u8>,
    declared_size: u64,
}

/// A download under way, as plain mathematical values.
pub struct DownloadView {
    pub received: Seq<u8>,
    pub declared_size: u64,
}

impl View for Download {
    type V = DownloadView;

    closed spec fn view(&self) -> DownloadView {
        DownloadView { received: self.received@, declared_size: self.declared_size }
    }
}

/// What a verified download gives for a body and a checksum: the body itself
/// where the checksum is its own, and `Integrity` where it is not.
pub open spec fn verify_download_spec(content: Seq<u8>, sha256: Seq<char>) -> Result<
    Seq<u8>,
    UpdateError,
> {
    if checksum_of(content) == sha256 {
        Ok(content)
    } else {
        Err(UpdateError::Integrity)
    }
}

/// The bytes of a verified download, or its error.
pub open spec fn verified_bytes(outcome: Result<Vec<u8>, UpdateError>) -> Result<
    Seq<u8>,
    UpdateError,
> {
    match outcome {
        Ok(content) => Ok(content@),
        Err(error) => Err(error),
    }
}

impl Download {
    /// A download of which nothing has arrived yet.
    pub fn new(declared_size: u64) -> (download: Download)
        ensures
            download@ == (DownloadView { received: Seq::empty(), declared_size }),
    {
        Download { received: Vec::new(), declared_size }
    }

    /// Takes the next chunk of the body, and returns the number of bytes by
    /// which the transfer has advanced.
    pub fn accept(&mut self, chunk: &[u8]) -> (advanced: usize)
        ensures
            final(self)@.received == old(self)@.received + chunk@,
            final(self)@.declared_size == old(self)@.declared_size,
            advanced == chunk@.len(),
    {
        let ghost before = self.received@;
        self.received.extend_from_slice(chunk);
        proof {
            assert(self.received@ =~= before + chunk@);
        }
        chunk.len()
    }

    /// The number of bytes received so far.
    pub fn received_len(&self) -> (n: usize)
        ensures
            n == self@.received.len(),
    {
        self.received.len()
    }

    /// The size that the release declared.
    pub fn declared_size(&self) -> (n: u64)
        ensures
            n == self@.declared_size,
    {
        self.declared_size
    }

    /// Ends the download and hands the body over as it was received, not
    /// verified.
    pub fn into_body(self) -> (body: Vec<u8>)
        ensures
            body@ == self@.received,
    {
        self.received
    }

    /// Ends the download and verifies the body against the checksum that the
    /// release declared. The declared size plays no part: only the digest
    /// decides.
    pub fn finish(self, sha256: &str) -> (outcome: Result<Vec<u8>, UpdateError>)
        ensures
            verified_bytes(outcome) == verify_download_spec(self@.received, sha256@),
    {
        verify_download(self.received, sha256)
    }
}

/// What the comparison of a body's digest with a checksum gives: the body
/// where the digest, in lowercase hexadecimal, is the checksum, and
/// `Integrity` where it is not.
pub open spec fn check_digest_spec(content: Seq<u8>, digest: Seq<u8>, sha256: Seq<char>) -> Result<
    Seq<u8>,
    UpdateError,
> {
    if digest_matches_spec(digest, sha256) {
        Ok(content)
    } else {
        Err(UpdateError::Integrity)
    }
}

/// Decides on a downloaded body, given its digest: the body is handed back
/// unchanged where the digest is the declared checksum, and refused with
/// `Integrity` where it is not.
pub fn check_digest(content: Vec<u8>, digest: &[u8], sha256: &str) -> (outcome: Result<
    Vec<u8>,
    UpdateError,
>)
    ensures
        verified_bytes(outcome) == check_digest_spec(content@, digest@, sha256@),
{
    if digest_matches(digest, sha256) {
        Ok(content)
    } else {
        Err(UpdateError::Integrity)
    }
}

/// Verifies a downloaded body against a declared checksum: the body is
/// handed back where its SHA-256 digest, in lowercase hexadecimal, is the
/// checksum, and refused with `Integrity` where it is not.
pub fn verify_download(content: Vec<u8>, sha256: &str) -> (outcome: Result<Vec<u8>, UpdateError>)
    ensures
        verified_bytes(outcome) == verify_download_spec(content@, sha256@),
{
    let digest = sha256_digest(content.as_slice());
    check_digest(content, digest.as_slice(), sha256)
}

} // verus!
