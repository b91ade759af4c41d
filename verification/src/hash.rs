//! The 32-byte hash that the verification service computes over a preimage.

use blake2::{Blake2s256, Digest};
use vstd::prelude::*;

verus! {

/// The BLAKE2s-256 digest of `data`, as the `blake2` crate computes it.
///
/// The hash is left uninterpreted: nothing in this library depends on what
/// the digest of a given input is, only on its being a function of the input
/// and 32 bytes long.
pub uninterp spec fn blake2s256(data: Seq<u8>) -> [u8; 32];

/// Hashes `data` with `blake2::Blake2s256::digest`, which feeds the whole
/// input to a fresh hasher and finalizes it.
///
/// Trusted: the result is taken to be `blake2s256(data@)`, that is, to depend
/// on the bytes of `data` alone. The call does not fail on any input.
#[verifier::external_body]
pub(crate) fn blake2s256_digest(data: &[u8]) -> (digest: [u8; 32])
    ensures
        digest == blake2s256(data@),
{
    Blake2s256::digest(data).into()
}

} // verus!
