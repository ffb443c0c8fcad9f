use vstd::prelude::*;

verus! {

/// The first little-endian 64-bit word of a byte sequence: byte 0 is the
/// least significant, byte 7 the most significant.
pub open spec fn le_word_spec(b: Seq<u8>) -> int
    recommends
        b.len() >= 8,
{
    b[0] + 0x100 * b[1] + 0x1_0000 * b[2] + 0x100_0000 * b[3] + 0x1_0000_0000 * b[4]
        + 0x100_0000_0000 * b[5] + 0x1_0000_0000_0000 * b[6] + 0x100_0000_0000_0000 * b[7]
}

/// The first word depends on the first eight bytes alone: the rest of the
/// buffer's entropy is deliberately unused.
pub proof fn lemma_le_word_first_eight(b1: Seq<u8>, b2: Seq<u8>)
    requires
        b1.len() >= 8,
        b2.len() >= 8,
        forall|i: int| 0 <= i < 8 ==> b1[i] == b2[i],
    ensures
        le_word_spec(b1) == le_word_spec(b2),
{
}

/// Decode the first little-endian 64-bit word of `b`, an explicit decoding
/// step in place of an unchecked memory cast.
pub fn first_word(b: &[u8]) -> (w: u64)
    requires
        b@.len() >= 8,
    ensures
        w == le_word_spec(b@),
{
    let w0: u64 = b[0] as u64;
    let w1: u64 = b[1] as u64;
    let w2: u64 = b[2] as u64;
    let w3: u64 = b[3] as u64;
    let w4: u64 = b[4] as u64;
    let w5: u64 = b[5] as u64;
    let w6: u64 = b[6] as u64;
    let w7: u64 = b[7] as u64;
    w0 + 0x100 * w1 + 0x1_0000 * w2 + 0x100_0000 * w3 + 0x1_0000_0000 * w4 + 0x100_0000_0000 * w5
        + 0x1_0000_0000_0000 * w6 + 0x100_0000_0000_0000 * w7
}

} // verus!
