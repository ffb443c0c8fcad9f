use vstd::prelude::*;

use crate::errors::VrfError;
use crate::reduce::reduce_spec;
use crate::words::le_word_spec;

verus! {

/// A randomness buffer as the oracle produces it: a byte sequence holding a
/// positive whole number of little-endian 64-bit words.
pub struct RandomnessBuffer {
    bytes: Vec<u8>,
}

impl RandomnessBuffer {
    /// The buffer's bytes.
    pub closed spec fn bytes_spec(self) -> Seq<u8> {
        self.bytes@
    }

    /// The buffer's invariant: a positive whole number of 64-bit words.
    pub open spec fn wf(self) -> bool {
        self.bytes_spec().len() >= 8 && self.bytes_spec().len() % 8 == 0
    }

    /// Accept a byte sequence as a randomness buffer. Rejects, as a
    /// configuration-contract violation, a buffer shorter than one word or
    /// not a whole number of words.
    pub fn new(bytes: Vec<u8>) -> (r: Result<RandomnessBuffer, VrfError>)
        ensures
            r is Ok <==> bytes@.len() >= 8 && bytes@.len() % 8 == 0,
            r is Ok ==> r->Ok_0.bytes_spec() == bytes@ && r->Ok_0.wf(),
            r is Err ==> r->Err_0 == VrfError::InvalidConfiguration,
    {
        if bytes.len() >= 8 && bytes.len() % 8 == 0 {
            Ok(RandomnessBuffer { bytes })
        } else {
            Err(VrfError::InvalidConfiguration)
        }
    }

    /// How many bytes the buffer holds.
    pub fn len(&self) -> (n: usize)
        ensures
            n == self.bytes_spec().len(),
    {
        self.bytes.len()
    }

    /// The buffer's first little-endian 64-bit word.
    pub fn first_word(&self) -> (w: u64)
        requires
            self.wf(),
        ensures
            w == le_word_spec(self.bytes_spec()),
    {
        crate::words::first_word(self.bytes.as_slice())
    }

    /// Reduce the buffer's first word into `[0, max_value)`.
    pub fn reduce(&self, max_value: u64) -> (r: u64)
        requires
            self.wf(),
            max_value > 0,
        ensures
            r == reduce_spec(self.bytes_spec(), max_value),
            r < max_value,
    {
        crate::reduce::reduce(self.bytes.as_slice(), max_value)
    }
}

} // verus!
