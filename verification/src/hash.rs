//! Digest helpers over byte slices.

use vstd::prelude::*;

verus! {

/// Length in bytes of a SHA-1 digest.
pub const SHA1_LEN: usize = 20;

/// Length in bytes of a SHA-256 digest.
pub const SHA256_LEN: usize = 32;

/// The SHA-1 digest of a byte string, as the `sha1` crate computes it.
pub uninterp spec fn sha1_digest(data: Seq<u8>) -> Seq<u8>;

/// The SHA-256 digest of a byte string, as the `sha2` crate computes it.
pub uninterp spec fn sha256_digest(data: Seq<u8>) -> Seq<u8>;

/// Calls `<sha1::Sha1 as sha1::Digest>::digest`. Trusted: the bytes returned
/// are the digest of `data`, a function of `data` alone, and there are twenty
/// of them.
#[verifier::external_body]
fn sha1_oneshot(data: &[u8]) -> (digest: Vec<u8>)
    ensures
        digest@ == sha1_digest(data@),
        digest@.len() == SHA1_LEN,
{
    <sha1::Sha1 as sha1::Digest>::digest(data).to_vec()
}

/// Given a byte slice, return the SHA-1 hash of that content.
pub fn sha1(data: &[u8]) -> (digest: Vec<u8>)
    ensures
        digest@ == sha1_digest(data@),
        digest@.len() == SHA1_LEN,
{
    sha1_oneshot(data)
}

/// Calls `<sha2::Sha256 as sha2::Digest>::digest`. Trusted: the bytes
/// returned are the digest of `data`, a function of `data` alone, and there
/// are thirty-two of them.
#[verifier::external_body]
fn sha256_oneshot(data: &[u8]) -> (digest: Vec<u8>)
    ensures
        digest@ == sha256_digest(data@),
        digest@.len() == SHA256_LEN,
{
    <sha2::Sha256 as sha2::Digest>::digest(data).to_vec()
}

/// Given a byte slice, return the SHA-256 hash of that content.
pub fn sha256(data: &[u8]) -> (digest: Vec<u8>)
    ensures
        digest@ == sha256_digest(data@),
        digest@.len() == SHA256_LEN,
{
    sha256_oneshot(data)
}

} // verus!
