//! Hash functions of the crate `bitcoin`, on byte strings.

use vstd::prelude::*;

verus! {

/// The SHA-256 digest of a byte string.
pub uninterp spec fn sha256_digest(data: Seq<u8>) -> Seq<u8>;

/// The RIPEMD-160 digest of the SHA-256 digest of a byte string.
pub uninterp spec fn hash160_digest(data: Seq<u8>) -> Seq<u8>;

/// Calls `sha256::Hash::hash`. Trusted: the digest is the one that
/// [`sha256_digest`] names.
#[verifier::external_body]
pub(crate) fn sha256(data: &[u8]) -> (digest: [u8; 32])
    ensures
        digest@ == sha256_digest(data@),
{
    let digest: bitcoin::hashes::sha256::Hash = bitcoin::hashes::Hash::hash(data);
    bitcoin::hashes::Hash::into_inner(digest)
}

/// Calls `hash160::Hash::hash`. Trusted: the digest is the one that
/// [`hash160_digest`] names.
#[verifier::external_body]
pub(crate) fn hash160(data: &[u8]) -> (digest: [u8; 20])
    ensures
        digest@ == hash160_digest(data@),
{
    let digest: bitcoin::hashes::hash160::Hash = bitcoin::hashes::Hash::hash(data);
    bitcoin::hashes::Hash::into_inner(digest)
}

} // verus!
