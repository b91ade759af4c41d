//! The byte-increment service: adds one to every byte of a payload, wrapping
//! from 255 to 0.

use vstd::prelude::*;
use crate::accumulate::{
    accumulate_with_status, entry_view, planned_writes, Accumulation, STATUS_KEY, STATUS_PROCESSED,
};

verus! {

/// A byte plus one, modulo 256.
pub open spec fn incremented_byte(byte: u8) -> u8 {
    ((byte + 1) % 256) as u8
}

/// `bytes` with every byte incremented.
pub open spec fn incremented(bytes: Seq<u8>) -> Seq<u8> {
    Seq::new(bytes.len(), |i: int| incremented_byte(bytes[i]))
}

/// The byte-increment service.
pub struct IncrementService;

impl IncrementService {
    /// Transforms one payload: the result has the payload's length, and each
    /// of its bytes is the payload's byte at that place plus one, modulo 256.
    /// An empty payload gives an empty result.
    pub fn refine(
        _core_index: u16,
        _item_index: usize,
        _service_id: u32,
        payload: Vec<u8>,
        _package_hash: [u8; 32],
    ) -> (output: Vec<u8>)
        ensures
            output@ == incremented(payload@),
            output@.len() == payload@.len(),
            forall|i: int| 0 <= i < payload@.len() ==> output@[i] == (payload@[i] + 1) % 256,
    {
        let mut output: Vec<u8> = Vec::with_capacity(payload.len());
        let mut i: usize = 0;
        while i < payload.len()
            invariant
                i <= payload@.len(),
                output@.len() == i,
                forall|j: int| 0 <= j < i ==> output@[j] == incremented_byte(payload@[j]),
            decreases payload@.len() - i,
        {
            output.push(payload[i].wrapping_add(1));
            i += 1;
        }
        output
    }

    /// Folds a batch of `item_count` results into the store.
    ///
    /// `stored_count` is the entry that the store holds under the counter's
    /// key, if any. The answer asks for two writes: the counter, advanced by
    /// the item count truncated to a byte and saturated at 255, and the tag
    /// `processed` under the status key. It carries no digest.
    pub fn accumulate(
        _slot: u32,
        _service_id: u32,
        item_count: usize,
        stored_count: Option<Vec<u8>>,
    ) -> (result: Accumulation)
        ensures
            result.writes_view() == planned_writes(
                STATUS_PROCESSED@,
                entry_view(stored_count),
                item_count as int,
            ),
            result.writes_view()[1] == (STATUS_KEY@, STATUS_PROCESSED@),
            result.root is None,
    {
        accumulate_with_status(&STATUS_PROCESSED, stored_count, item_count)
    }
}

/// Incrementing keeps the length, turns each byte `b` into `(b + 1) mod 256`,
/// and maps the empty sequence to itself.
pub proof fn law_increment_is_bytewise(bytes: Seq<u8>)
    ensures
        incremented(bytes).len() == bytes.len(),
        forall|i: int| 0 <= i < bytes.len() ==> incremented(bytes)[i] == (bytes[i] + 1) % 256,
        bytes.len() == 0 ==> incremented(bytes) == Seq::<u8>::empty(),
{
}

} // verus!
