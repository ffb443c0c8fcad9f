use vstd::prelude::*;

use solana_program::account_info::AccountInfo;

use crate::accounts::AccountCursor;
use crate::buffer::RandomnessBuffer;
use crate::errors::VrfError;
use crate::oracle::fetch_verified_randomness;
use crate::reduce::reduce_spec;
use crate::report::report_line_spec;

verus! {

/// What one successful invocation produces: the derived bounded value and
/// the one log line reporting it.
pub struct ConsumedRandomness {
    pub value: u64,
    pub log: String,
}

/// The value reducer and result reporter in sequence: accept the oracle's
/// buffer, reduce its first little-endian 64-bit word into
/// `[0, max_value)`, and format the report line.
pub fn consume_randomness(bytes: Vec<u8>, max_value: u64) -> (r: Result<ConsumedRandomness, VrfError>)
    ensures
        r is Ok <==> bytes@.len() >= 8 && bytes@.len() % 8 == 0 && max_value > 0,
        r is Ok ==> r->Ok_0.value == reduce_spec(bytes@, max_value) && r->Ok_0.value < max_value
            && r->Ok_0.log@ == report_line_spec(max_value, r->Ok_0.value),
        r is Err ==> r->Err_0 == VrfError::InvalidConfiguration,
{
    if max_value == 0 {
        return Err(VrfError::InvalidConfiguration);
    }
    let buffer = match RandomnessBuffer::new(bytes) {
        Ok(b) => b,
        Err(e) => {
            return Err(e);
        },
    };
    let value = buffer.reduce(max_value);
    let log = crate::report::report(max_value, value);
    Ok(ConsumedRandomness { value, log })
}

/// The entry dispatcher: resolve the oracle account from the front of the
/// invocation's account list, retrieve its verified randomness, reduce the
/// buffer's first word into `[0, MAX_VALUE)`, and format the report line.
/// The instruction payload is ignored. Any failure is propagated and aborts
/// the invocation; only a success carries a log line to emit.
pub fn process_instruction<'a, 'b>(
    accounts: &'b [AccountInfo<'a>],
    _instruction_data: &[u8],
) -> (r: Result<ConsumedRandomness, VrfError>)
    ensures
        r == Err::<ConsumedRandomness, VrfError>(VrfError::MissingAccount) <==> accounts@.len()
            == 0,
        r is Ok ==> r->Ok_0.value < crate::MAX_VALUE && r->Ok_0.log@ == report_line_spec(
            crate::MAX_VALUE,
            r->Ok_0.value,
        ),
        r is Err ==> (r->Err_0 == VrfError::MissingAccount
            || r->Err_0 == VrfError::DeserializationError
            || r->Err_0 == VrfError::RandomnessNotFulfilled
            || r->Err_0 == VrfError::VerificationFailed
            || r->Err_0 == VrfError::InvalidConfiguration),
{
    let mut cursor = AccountCursor::new(accounts);
    let oracle_account = match cursor.resolve_next() {
        Ok(account) => account,
        Err(e) => {
            return Err(e);
        },
    };
    let randomness = match fetch_verified_randomness(oracle_account) {
        Ok(v) => v,
        Err(e) => {
            return Err(e);
        },
    };
    consume_randomness(randomness, crate::MAX_VALUE)
}

} // verus!
