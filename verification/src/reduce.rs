use vstd::prelude::*;

use crate::words::le_word_spec;
use crate::words::lemma_le_word_first_eight;

verus! {

/// The bounded value derived from a randomness buffer: its first
/// little-endian 64-bit word, reduced modulo `max_value`.
pub open spec fn reduce_spec(b: Seq<u8>, max_value: u64) -> int
    recommends
        b.len() >= 8,
        max_value > 0,
{
    le_word_spec(b) % (max_value as int)
}

/// The reduction lands in the half-open range `[0, max_value)`.
pub proof fn lemma_reduce_in_range(b: Seq<u8>, max_value: u64)
    requires
        b.len() >= 8,
        max_value > 0,
    ensures
        0 <= reduce_spec(b, max_value) < max_value,
{
}

/// The reduction is deterministic and reads only the buffer's first word:
/// buffers that agree on their first eight bytes reduce to the same value.
pub proof fn lemma_reduce_deterministic(b1: Seq<u8>, b2: Seq<u8>, max_value: u64)
    requires
        b1.len() >= 8,
        b2.len() >= 8,
        forall|i: int| 0 <= i < 8 ==> b1[i] == b2[i],
    ensures
        reduce_spec(b1, max_value) == reduce_spec(b2, max_value),
{
    lemma_le_word_first_eight(b1, b2);
}

/// Reduce the buffer's first little-endian 64-bit word into `[0, max_value)`
/// by modulo arithmetic. The reduction is deterministic; it is not perfectly
/// uniform when `2^64` is not a multiple of `max_value`, which callers
/// needing perfect uniformity must address with rejection sampling.
pub fn reduce(b: &[u8], max_value: u64) -> (r: u64)
    requires
        b@.len() >= 8,
        max_value > 0,
    ensures
        r == reduce_spec(b@, max_value),
        r < max_value,
{
    let w = crate::words::first_word(b);
    w % max_value
}

} // verus!
