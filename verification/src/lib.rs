//! On-chain consumer of oracle-verified randomness.
//!
//! One invocation resolves the oracle account from the invocation's account
//! list, retrieves the oracle's verified randomness, interprets the buffer's
//! first little-endian 64-bit word, and reduces it modulo a fixed bound.

use vstd::prelude::*;

pub mod accounts;
pub mod buffer;
pub mod dispatch;
pub mod errors;
pub mod oracle;
pub mod reduce;
pub mod report;
pub mod wire;
pub mod words;

verus! {

/// Exclusive upper bound of the derived bounded value.
pub const MAX_VALUE: u64 = 25000;

} // verus!
