use vstd::prelude::*;

verus! {

/// Failure kinds of one invocation. Every failure is fatal: it is propagated
/// to the host runtime, which rejects the whole transaction.
#[derive(Clone, Copy, Debug, PartialEq, Eq, Structural)]
pub enum VrfError {
    /// The account list was exhausted before the oracle account was found.
    MissingAccount,
    /// The oracle account is not owned by the expected oracle program.
    /// That check is delegated to the oracle's client library, and the
    /// library version consumed here performs none, so no invocation
    /// produces this kind; it is declared for the error model's sake.
    InvalidAccountOwner,
    /// The oracle has not yet stored a randomness value for the request.
    RandomnessNotFulfilled,
    /// The randomness proof has fewer confirmations than the oracle requires.
    VerificationFailed,
    /// The oracle account's data cannot be parsed into a randomness state.
    DeserializationError,
    /// The reduction's contract was violated: a zero bound, or a buffer
    /// shorter than one 64-bit word or not a whole number of words.
    InvalidConfiguration,
}

impl VrfError {
    /// Numeric code under which the error is reported to the host runtime.
    pub open spec fn code_spec(self) -> u32 {
        match self {
            VrfError::MissingAccount => 1,
            VrfError::InvalidAccountOwner => 2,
            VrfError::RandomnessNotFulfilled => 3,
            VrfError::VerificationFailed => 4,
            VrfError::DeserializationError => 5,
            VrfError::InvalidConfiguration => 6,
        }
    }

    /// The code of each kind, for the runtime's custom-error channel.
    pub fn code(&self) -> (c: u32)
        ensures
            c == self.code_spec(),
    {
        match self {
            VrfError::MissingAccount => 1,
            VrfError::InvalidAccountOwner => 2,
            VrfError::RandomnessNotFulfilled => 3,
            VrfError::VerificationFailed => 4,
            VrfError::DeserializationError => 5,
            VrfError::InvalidConfiguration => 6,
        }
    }
}

} // verus!
