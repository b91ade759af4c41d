//! The verification service: checks that a payload's preimage hashes to the
//! digest that the payload claims for it.

use vstd::prelude::*;
use crate::accumulate::{
    accumulate_with_status, entry_view, planned_writes, Accumulation, STATUS_ACCUMULATED, STATUS_KEY,
};
use crate::hash::{blake2s256, blake2s256_digest};
use crate::output::{encode_result, encoded, zero_digest, ResultCode, DIGEST_LEN, OUTPUT_LEN};
use crate::payload::{
    decode_payload, expected_digest_of, is_well_formed, lemma_fields_of_concatenation, preimage_of,
};

verus! {

/// The outcome of comparing a claimed digest with the computed one.
pub open spec fn outcome(expected: Seq<u8>, computed: [u8; 32]) -> ResultCode {
    if computed@ == expected {
        ResultCode::Valid
    } else {
        ResultCode::Invalid
    }
}

/// The result reported for a well-formed payload whose preimage hashed to
/// `computed`: the outcome byte, then the computed digest.
pub open spec fn verification_result(expected: Seq<u8>, computed: [u8; 32]) -> Seq<u8> {
    encoded(outcome(expected, computed), Some(computed))
}

/// The result that `refine` reports for `payload`.
pub open spec fn refined(payload: Seq<u8>) -> Seq<u8> {
    if is_well_formed(payload) {
        verification_result(expected_digest_of(payload), blake2s256(preimage_of(payload)))
    } else {
        encoded(ResultCode::ErrorPayloadTooShort, None)
    }
}

/// Compares a claimed digest with a computed one, byte for byte. Every byte
/// is looked at, whether or not an earlier one already differed.
pub fn judge(expected: &[u8], computed: &[u8; 32]) -> (code: ResultCode)
    ensures
        code == outcome(expected@, *computed),
{
    if expected.len() != DIGEST_LEN {
        return ResultCode::Invalid;
    }
    let mut equal = true;
    let mut i: usize = 0;
    while i < DIGEST_LEN
        invariant
            i <= DIGEST_LEN,
            expected@.len() == DIGEST_LEN,
            equal <==> forall|j: int| 0 <= j < i ==> expected@[j] == computed@[j],
        decreases DIGEST_LEN - i,
    {
        if expected[i] != computed[i] {
            equal = false;
        }
        i += 1;
    }
    assert(equal <==> computed@ =~= expected@);
    if equal {
        ResultCode::Valid
    } else {
        ResultCode::Invalid
    }
}

/// Builds the result for a well-formed payload from the digest that its
/// preimage hashed to. The digest in the result is always the computed one.
pub fn conclude(expected: &[u8], computed: [u8; 32]) -> (output: Vec<u8>)
    ensures
        output@ == verification_result(expected@, computed),
        output@.len() == OUTPUT_LEN,
{
    let code = judge(expected, &computed);
    encode_result(code, Some(computed))
}

/// The verification service.
pub struct MyService;

impl MyService {
    /// Checks one payload: `[32-byte expected digest][preimage]`.
    ///
    /// Returns 33 bytes. A payload shorter than 33 bytes gives `0xE1`
    /// followed by 32 zero bytes. Otherwise the preimage is hashed and the
    /// result is `0x01` or `0x00`, as the digest equals the expected one or
    /// not, followed by the digest that was computed.
    pub fn refine(
        _core_index: u16,
        _item_index: usize,
        _service_id: u32,
        payload: Vec<u8>,
        _package_hash: [u8; 32],
    ) -> (output: Vec<u8>)
        ensures
            output@ == refined(payload@),
            output@.len() == OUTPUT_LEN,
            payload@.len() < 33 ==> output@ == seq![0xE1u8] + zero_digest(),
    {
        match decode_payload(payload.as_slice()) {
            Err(code) => encode_result(code, None),
            Ok(fields) => {
                let computed = blake2s256_digest(fields.preimage);
                conclude(fields.expected_digest, computed)
            },
        }
    }

    /// Folds a batch of `item_count` results into the store.
    ///
    /// `stored_count` is the entry that the store holds under the counter's
    /// key, if any. The answer asks for two writes: the counter, advanced by
    /// the item count truncated to a byte and saturated at 255, and the tag
    /// `accumulated` under the status key. It carries no digest.
    pub fn accumulate(
        _slot: u32,
        _service_id: u32,
        item_count: usize,
        stored_count: Option<Vec<u8>>,
    ) -> (result: Accumulation)
        ensures
            result.writes_view() == planned_writes(
                STATUS_ACCUMULATED@,
                entry_view(stored_count),
                item_count as int,
            ),
            result.writes_view()[1] == (STATUS_KEY@, STATUS_ACCUMULATED@),
            result.root is None,
    {
        accumulate_with_status(&STATUS_ACCUMULATED, stored_count, item_count)
    }
}

/// A payload that carries the digest of its own preimage is reported valid,
/// together with that digest.
pub proof fn law_own_digest_is_valid(preimage: Seq<u8>)
    requires
        preimage.len() >= 1,
    ensures
        refined(blake2s256(preimage)@ + preimage) == seq![0x01u8] + blake2s256(preimage)@,
{
    lemma_fields_of_concatenation(blake2s256(preimage)@, preimage);
}

/// A payload that carries any other 32 bytes in place of the digest of its
/// preimage is reported invalid, together with the digest of the preimage,
/// not with the bytes it carried.
pub proof fn law_other_digest_is_invalid(claimed: Seq<u8>, preimage: Seq<u8>)
    requires
        claimed.len() == DIGEST_LEN,
        preimage.len() >= 1,
    ensures
        claimed != blake2s256(preimage)@ ==> refined(claimed + preimage) == seq![0x00u8]
            + blake2s256(preimage)@,
{
    lemma_fields_of_concatenation(claimed, preimage);
}

/// A payload of fewer than 33 bytes is reported as too short, with a zero
/// digest field.
pub proof fn law_short_payload_is_error(payload: Seq<u8>)
    requires
        payload.len() < 33,
    ensures
        refined(payload) == seq![0xE1u8] + zero_digest(),
{
}

/// Every result is 33 bytes long, whatever the outcome.
pub proof fn law_result_length(payload: Seq<u8>)
    ensures
        refined(payload).len() == OUTPUT_LEN,
{
}

} // verus!
