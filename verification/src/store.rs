//! A model of the host's key/value store, and what a run of the accumulation
//! stage does to it.
//!
//! The store is a map from byte strings to byte strings. A run reads the
//! counter entry, and the host then attempts the writes that the run asks
//! for. The host may turn a write down; the run goes on regardless, so the
//! model takes, for each write, whether it was taken.

use vstd::prelude::*;
use crate::accumulate::{clamped, counter_value, next_count, planned_writes, COUNT_KEY, COUNT_MAX, STATUS_KEY};

verus! {

/// The entry that `store` holds under `key`, if any.
pub open spec fn entry(store: Map<Seq<u8>, Seq<u8>>, key: Seq<u8>) -> Option<Seq<u8>> {
    if store.dom().contains(key) {
        Some(store[key])
    } else {
        None
    }
}

/// The counter that `store` holds.
pub open spec fn counter_of(store: Map<Seq<u8>, Seq<u8>>) -> int {
    counter_value(entry(store, COUNT_KEY@))
}

/// The store after one write was attempted.
pub open spec fn after_write(store: Map<Seq<u8>, Seq<u8>>, write: (Seq<u8>, Seq<u8>), taken: bool) -> Map<
    Seq<u8>,
    Seq<u8>,
> {
    if taken {
        store.insert(write.0, write.1)
    } else {
        store
    }
}

/// The store after the writes were attempted in order; `taken[i]` says
/// whether the host took `writes[i]`.
pub open spec fn after_writes(
    store: Map<Seq<u8>, Seq<u8>>,
    writes: Seq<(Seq<u8>, Seq<u8>)>,
    taken: Seq<bool>,
) -> Map<Seq<u8>, Seq<u8>>
    recommends
        taken.len() == writes.len(),
    decreases writes.len(),
{
    if writes.len() == 0 {
        store
    } else {
        after_write(
            after_writes(store, writes.drop_last(), taken.drop_last()),
            writes.last(),
            taken.last(),
        )
    }
}

/// The store after a run of the accumulation stage for `item_count` items
/// by the service whose tag is `status`.
pub open spec fn after_accumulate(
    store: Map<Seq<u8>, Seq<u8>>,
    status: Seq<u8>,
    item_count: int,
    taken: Seq<bool>,
) -> Map<Seq<u8>, Seq<u8>>
    recommends
        taken.len() == 2,
{
    after_writes(store, planned_writes(status, entry(store, COUNT_KEY@), item_count), taken)
}

/// A run is two writes: the counter, then the status.
pub proof fn lemma_run_unfolds(store: Map<Seq<u8>, Seq<u8>>, status: Seq<u8>, item_count: int, taken: Seq<bool>)
    requires
        taken.len() == 2,
    ensures
        after_accumulate(store, status, item_count, taken) == after_write(
            after_write(
                store,
                (COUNT_KEY@, seq![next_count(counter_of(store), item_count) as u8]),
                taken[0],
            ),
            (STATUS_KEY@, status),
            taken[1],
        ),
{
    let writes = planned_writes(status, entry(store, COUNT_KEY@), item_count);
    assert(writes.drop_last().drop_last() =~= Seq::empty());
    assert(writes.drop_last().last() == writes[0]);
    assert(taken.drop_last().last() == taken[0]);
    reveal_with_fuel(after_writes, 3);
}

/// Where the host takes the counter write, the store afterwards holds, as a
/// single byte, the old counter plus the item count truncated to a byte,
/// clamped at 255. For an item count that fits in a byte this is
/// `min(255, counter + item_count)`.
pub proof fn law_run_advances_counter(
    store: Map<Seq<u8>, Seq<u8>>,
    status: Seq<u8>,
    item_count: int,
    taken: Seq<bool>,
)
    requires
        0 <= item_count,
        taken.len() == 2,
        taken[0],
    ensures
        entry(after_accumulate(store, status, item_count, taken), COUNT_KEY@) == Some(
            seq![next_count(counter_of(store), item_count) as u8],
        ),
        counter_of(after_accumulate(store, status, item_count, taken)) == next_count(
            counter_of(store),
            item_count,
        ),
        item_count < 256 ==> counter_of(after_accumulate(store, status, item_count, taken)) == clamped(
            counter_of(store) + item_count,
        ),
{
    lemma_run_unfolds(store, status, item_count, taken);
    assert(COUNT_KEY@.len() != STATUS_KEY@.len());
}

/// Whatever the host does with the writes, a run never lowers the counter
/// and never takes it past 255.
pub proof fn law_run_keeps_counter_monotonic(
    store: Map<Seq<u8>, Seq<u8>>,
    status: Seq<u8>,
    item_count: int,
    taken: Seq<bool>,
)
    requires
        0 <= item_count,
        taken.len() == 2,
    ensures
        counter_of(store) <= counter_of(after_accumulate(store, status, item_count, taken)) <= COUNT_MAX,
{
    lemma_run_unfolds(store, status, item_count, taken);
    assert(COUNT_KEY@.len() != STATUS_KEY@.len());
}

/// Where the host takes the status write, the store afterwards holds the
/// service's tag under the status key, whatever the item count and whatever
/// the store held before.
pub proof fn law_run_sets_status(
    store: Map<Seq<u8>, Seq<u8>>,
    status: Seq<u8>,
    item_count: int,
    taken: Seq<bool>,
)
    requires
        taken.len() == 2,
        taken[1],
    ensures
        entry(after_accumulate(store, status, item_count, taken), STATUS_KEY@) == Some(status),
{
    lemma_run_unfolds(store, status, item_count, taken);
}

/// A run touches no entry but the counter and the status.
pub proof fn law_run_keeps_other_entries(
    store: Map<Seq<u8>, Seq<u8>>,
    status: Seq<u8>,
    item_count: int,
    taken: Seq<bool>,
    key: Seq<u8>,
)
    requires
        taken.len() == 2,
        key != COUNT_KEY@,
        key != STATUS_KEY@,
    ensures
        entry(after_accumulate(store, status, item_count, taken), key) == entry(store, key),
{
    lemma_run_unfolds(store, status, item_count, taken);
}

} // verus!
