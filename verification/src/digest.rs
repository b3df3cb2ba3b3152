//! SHA-256 digests of byte strings.

use sha2::Digest;
use sha2::Sha256;
use vstd::prelude::*;

verus! {

/// The SHA-256 digest of a byte string, as the `sha2` crate computes it.
pub uninterp spec fn sha256(bytes: Seq<u8>) -> Seq<u8>;

/// Runs `sha2::Sha256` over `bytes`: a fresh hasher, one `update` with the
/// whole span, then `finalize`. Believed, not proved: the outcome depends on
/// the bytes alone, and it is the 32 bytes of a SHA-256 digest.
#[verifier::external_body]
fn sha256_bytes(bytes: &[u8]) -> (digest: Box<[u8]>)
    ensures
        digest@ == sha256(bytes@),
        digest@.len() == 32,
{
    let mut hasher = Sha256::new();
    hasher.update(bytes);
    Box::from(hasher.finalize().as_slice())
}

/// The SHA-256 digest of `bytes`. Every byte string has one, the empty one
/// too, and every call starts from a fresh hasher.
pub fn sha256_of(bytes: &[u8]) -> (digest: Box<[u8]>)
    ensures
        digest@ == sha256(bytes@),
        digest@.len() == 32,
{
    sha256_bytes(bytes)
}

/// Hashing one byte string twice gives one digest: whatever two calls of
/// `sha256_of` return for equal spans is equal.
pub proof fn lemma_digest_deterministic(
    first_span: Seq<u8>,
    second_span: Seq<u8>,
    first_digest: Seq<u8>,
    second_digest: Seq<u8>,
)
    requires
        first_span == second_span,
        first_digest == sha256(first_span),
        second_digest == sha256(second_span),
    ensures
        first_digest == second_digest,
{
}

} // verus!
