//! The layout of a verification payload: a 32-byte expected digest followed by
//! a preimage of at least one byte.

use vstd::prelude::*;
use crate::output::{ResultCode, DIGEST_LEN};

verus! {

/// The shortest payload that holds a digest and a non-empty preimage.
pub const MIN_PAYLOAD_LEN: usize = 33;

/// Whether `payload` is long enough to be split.
pub open spec fn is_well_formed(payload: Seq<u8>) -> bool {
    payload.len() >= MIN_PAYLOAD_LEN
}

/// The expected digest carried by a payload: its first 32 bytes.
pub open spec fn expected_digest_of(payload: Seq<u8>) -> Seq<u8> {
    payload.subrange(0, DIGEST_LEN as int)
}

/// The preimage carried by a payload: everything after the expected digest.
pub open spec fn preimage_of(payload: Seq<u8>) -> Seq<u8> {
    payload.subrange(DIGEST_LEN as int, payload.len() as int)
}

/// The two fields of a payload, borrowed from the buffer they were read from.
#[derive(Clone, Copy, Debug)]
pub struct DecodedPayload<'a> {
    /// The digest that the sender claims for the preimage.
    pub expected_digest: &'a [u8],
    /// The bytes to hash.
    pub preimage: &'a [u8],
}

/// Splits a payload into its expected digest and its preimage.
///
/// A payload of fewer than 33 bytes cannot hold both fields and is answered
/// with `ErrorPayloadTooShort`; every other payload is split after byte 32.
pub fn decode_payload<'a>(data: &'a [u8]) -> (decoded: Result<DecodedPayload<'a>, ResultCode>)
    ensures
        decoded is Ok <==> is_well_formed(data@),
        decoded matches Ok(fields) ==> {
            &&& fields.expected_digest@ == expected_digest_of(data@)
            &&& fields.preimage@ == preimage_of(data@)
            &&& fields.expected_digest@.len() == DIGEST_LEN
            &&& fields.preimage@.len() >= 1
            &&& fields.expected_digest@ + fields.preimage@ == data@
        },
        decoded matches Err(code) ==> code == ResultCode::ErrorPayloadTooShort,
{
    if data.len() < MIN_PAYLOAD_LEN {
        return Err(ResultCode::ErrorPayloadTooShort);
    }
    let (expected_digest, preimage) = data.split_at(DIGEST_LEN);
    Ok(DecodedPayload { expected_digest, preimage })
}

/// A digest followed by a non-empty preimage is a well-formed payload, and
/// it decodes to exactly those two fields.
pub proof fn lemma_fields_of_concatenation(digest: Seq<u8>, preimage: Seq<u8>)
    requires
        digest.len() == DIGEST_LEN,
        preimage.len() >= 1,
    ensures
        is_well_formed(digest + preimage),
        expected_digest_of(digest + preimage) == digest,
        preimage_of(digest + preimage) == preimage,
{
}

} // verus!
