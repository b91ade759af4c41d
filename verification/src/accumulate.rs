//! The accumulation stage: a one-byte saturating counter of processed items
//! and a status tag, kept in a key/value store that belongs to the host.
//!
//! The stage does not touch the store itself. It is handed the entry that the
//! store holds under the counter's key and answers with the writes to make,
//! each of which the host attempts whether or not an earlier one was taken.

use vstd::prelude::*;
use vstd::slice::slice_to_vec;

verus! {

/// Key of the counter entry: the ASCII bytes of `count`.
pub const COUNT_KEY: [u8; 5] = [0x63, 0x6f, 0x75, 0x6e, 0x74];

/// Key of the status entry: the ASCII bytes of `status`.
pub const STATUS_KEY: [u8; 6] = [0x73, 0x74, 0x61, 0x74, 0x75, 0x73];

/// Status tag of the verification service: the ASCII bytes of `accumulated`.
pub const STATUS_ACCUMULATED: [u8; 11] = [
    0x61, 0x63, 0x63, 0x75, 0x6d, 0x75, 0x6c, 0x61, 0x74, 0x65, 0x64,
];

/// Status tag of the byte-increment service: the ASCII bytes of `processed`.
pub const STATUS_PROCESSED: [u8; 9] = [0x70, 0x72, 0x6f, 0x63, 0x65, 0x73, 0x73, 0x65, 0x64];

/// The largest value the counter can hold.
pub const COUNT_MAX: u8 = 255;

/// The counter that a stored entry stands for: its first byte, or zero where
/// the entry is absent or empty.
pub open spec fn counter_value(entry: Option<Seq<u8>>) -> int {
    match entry {
        Some(bytes) => if bytes.len() > 0 { bytes[0] as int } else { 0 },
        None => 0,
    }
}

/// What a batch of `item_count` items adds to the counter: the item count
/// truncated to one byte.
pub open spec fn batch_increment(item_count: int) -> int {
    item_count % 256
}

/// The counter after a batch: the sum, clamped at 255.
pub open spec fn next_count(current: int, item_count: int) -> int {
    if current + batch_increment(item_count) > COUNT_MAX {
        COUNT_MAX as int
    } else {
        current + batch_increment(item_count)
    }
}

/// The bytes of a stored entry, if there is one.
pub open spec fn entry_view(entry: Option<Vec<u8>>) -> Option<Seq<u8>> {
    match entry {
        Some(bytes) => Some(bytes@),
        None => None,
    }
}

/// Reads the counter out of the entry stored under [`COUNT_KEY`].
pub fn read_counter(stored: &Option<Vec<u8>>) -> (count: u8)
    ensures
        count == counter_value(entry_view(*stored)),
{
    match stored {
        Some(bytes) => if bytes.len() > 0 { bytes[0] } else { 0 },
        None => 0,
    }
}

/// Adds a batch of `item_count` items to the counter, saturating at 255.
pub fn advance_counter(current: u8, item_count: usize) -> (count: u8)
    ensures
        count == next_count(current as int, item_count as int),
        current <= count,
{
    let increment: u8 = (item_count % 256) as u8;
    current.saturating_add(increment)
}

/// One write to the host's store: the value to put under a key.
#[derive(Debug, PartialEq, Eq)]
pub struct StorageWrite {
    /// The key to write under.
    pub key: Vec<u8>,
    /// The value to store.
    pub value: Vec<u8>,
}

impl View for StorageWrite {
    type V = (Seq<u8>, Seq<u8>);

    open spec fn view(&self) -> (Seq<u8>, Seq<u8>) {
        (self.key@, self.value@)
    }
}

/// What one run of the accumulation stage asks of the host.
#[derive(Debug, PartialEq, Eq)]
pub struct Accumulation {
    /// The writes to attempt, in this order. A write that the host turns down
    /// is skipped; the ones after it are attempted all the same.
    pub writes: Vec<StorageWrite>,
    /// The digest to hand back to the host, if the run produced one.
    pub root: Option<[u8; 32]>,
}

impl Accumulation {
    /// The writes as pairs of key and value.
    pub open spec fn writes_view(self) -> Seq<(Seq<u8>, Seq<u8>)> {
        Seq::new(self.writes@.len(), |i: int| self.writes@[i]@)
    }
}

/// The writes that a run makes: first the new counter, as a single byte,
/// under [`COUNT_KEY`], then the status tag under [`STATUS_KEY`].
pub open spec fn planned_writes(status: Seq<u8>, stored_count: Option<Seq<u8>>, item_count: int) -> Seq<
    (Seq<u8>, Seq<u8>),
> {
    seq![
        (COUNT_KEY@, seq![next_count(counter_value(stored_count), item_count) as u8]),
        (STATUS_KEY@, status),
    ]
}

/// Runs the accumulation stage for a batch of `item_count` items.
///
/// `stored_count` is the entry that the store holds under [`COUNT_KEY`], if
/// any, and `status` the tag of the service that runs. The counter advances
/// by the item count truncated to a byte and saturates at 255; the status tag
/// is written whatever the counter and the item count are. No digest is
/// produced.
pub fn accumulate_with_status(status: &[u8], stored_count: Option<Vec<u8>>, item_count: usize) -> (result:
    Accumulation)
    ensures
        result.writes_view() == planned_writes(status@, entry_view(stored_count), item_count as int),
        result.root is None,
{
    let current = read_counter(&stored_count);
    let count = advance_counter(current, item_count);
    let count_write = StorageWrite { key: slice_to_vec(&COUNT_KEY), value: vec![count] };
    let status_write = StorageWrite { key: slice_to_vec(&STATUS_KEY), value: slice_to_vec(status) };
    proof {
        let plan = planned_writes(status@, entry_view(stored_count), item_count as int);
        assert(count_write.value@ =~= plan[0].1);
        assert(count_write@ == plan[0]);
        assert(status_write@ == plan[1]);
    }
    let mut writes: Vec<StorageWrite> = Vec::with_capacity(2);
    writes.push(count_write);
    writes.push(status_write);
    Accumulation { writes, root: None }
}

/// The counter after a run of batches, starting from `start`.
pub open spec fn count_after_batches(start: int, batches: Seq<int>) -> int
    decreases batches.len(),
{
    if batches.len() == 0 {
        start
    } else {
        next_count(count_after_batches(start, batches.drop_last()), batches.last())
    }
}

/// What a run of batches adds to an unbounded counter.
pub open spec fn total_increment(batches: Seq<int>) -> int
    decreases batches.len(),
{
    if batches.len() == 0 {
        0
    } else {
        total_increment(batches.drop_last()) + batch_increment(batches.last())
    }
}

/// `value`, clamped at 255.
pub open spec fn clamped(value: int) -> int {
    if value > COUNT_MAX {
        COUNT_MAX as int
    } else {
        value
    }
}

/// One batch never lowers the counter and never takes it past 255.
pub proof fn law_counter_is_monotonic(current: int, item_count: int)
    requires
        0 <= current <= COUNT_MAX,
        0 <= item_count,
    ensures
        current <= next_count(current, item_count) <= COUNT_MAX,
{
}

/// The counter after a batch is `min(255, current + item_count)` wherever
/// the item count fits in a byte or the counter saturates anyway.
pub proof fn law_counter_is_clamped_sum(current: int, item_count: int)
    requires
        0 <= current <= COUNT_MAX,
        0 <= item_count,
        item_count < 256 || current + batch_increment(item_count) >= COUNT_MAX,
    ensures
        next_count(current, item_count) == clamped(current + item_count),
{
}

/// Everywhere else the counter stays below `min(255, current + item_count)`:
/// an item count of 256 or more counts only for its low byte.
pub proof fn law_large_batches_are_truncated(current: int, item_count: int)
    requires
        0 <= current <= COUNT_MAX,
        item_count >= 256,
        current + batch_increment(item_count) < COUNT_MAX,
    ensures
        next_count(current, item_count) == current + batch_increment(item_count),
        next_count(current, item_count) < clamped(current + item_count),
{
}

/// Over any run of batches the counter is the clamped sum of what the
/// batches add: the start plus each item count truncated to a byte.
pub proof fn law_batches_add_up(start: int, batches: Seq<int>)
    requires
        0 <= start <= COUNT_MAX,
        forall|i: int| 0 <= i < batches.len() ==> 0 <= batches[i],
    ensures
        0 <= total_increment(batches),
        count_after_batches(start, batches) == clamped(start + total_increment(batches)),
    decreases batches.len(),
{
    if batches.len() > 0 {
        law_batches_add_up(start, batches.drop_last());
    }
}

/// Along a run of batches the counter never goes down and never passes 255:
/// after any prefix of the run it is at most what it is after a longer one.
pub proof fn law_batches_are_monotonic(start: int, batches: Seq<int>, shorter: int, longer: int)
    requires
        0 <= start <= COUNT_MAX,
        forall|i: int| 0 <= i < batches.len() ==> 0 <= batches[i],
        0 <= shorter <= longer <= batches.len(),
    ensures
        start <= count_after_batches(start, batches.take(shorter)) <= count_after_batches(
            start,
            batches.take(longer),
        ) <= COUNT_MAX,
    decreases longer - shorter, shorter,
{
    if shorter < longer {
        law_batches_are_monotonic(start, batches, shorter, longer - 1);
        assert(batches.take(longer).drop_last() =~= batches.take(longer - 1));
        law_counter_is_monotonic(
            count_after_batches(start, batches.take(longer - 1)),
            batches.take(longer).last(),
        );
    } else if shorter > 0 {
        law_batches_are_monotonic(start, batches, shorter - 1, shorter - 1);
        assert(batches.take(shorter).drop_last() =~= batches.take(shorter - 1));
        law_counter_is_monotonic(
            count_after_batches(start, batches.take(shorter - 1)),
            batches.take(shorter).last(),
        );
    } else {
        assert(batches.take(0) =~= Seq::<int>::empty());
    }
}

} // verus!
