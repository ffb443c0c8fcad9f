use vstd::prelude::*;

use solana_program::account_info::AccountInfo;
use switchboard_program::SwitchboardAccountType;
use switchboard_protos::protos::vrf::VrfAccountData;

use crate::errors::VrfError;
use crate::wire::wire_accepts;

verus! {

/// What the oracle client reads of a parsed oracle account state: the stored
/// randomness, if any, and the proof-confirmation counts.
pub struct OracleState {
    pub randomness: Option<Vec<u8>>,
    pub min_confirmations: Option<i32>,
    pub num_confirmations: Option<i32>,
}

impl OracleState {
    /// The state as plain mathematical values.
    pub open spec fn view_spec(self) -> (Option<Seq<u8>>, Option<int>, Option<int>) {
        (
            match self.randomness {
                Some(v) => Some(v@),
                None => None,
            },
            match self.min_confirmations {
                Some(m) => Some(m as int),
                None => None,
            },
            match self.num_confirmations {
                Some(n) => Some(n as int),
                None => None,
            },
        )
    }
}

/// What the oracle account's protobuf payload parses to: `None` when the
/// bytes are not a well-formed encoding, otherwise the randomness and the
/// two proof-confirmation counts. The parse is a function of the bytes alone.
pub uninterp spec fn vrf_state_of(data: Seq<u8>) -> Option<(Option<Seq<u8>>, Option<int>, Option<int>)>;

/// Relies on `quick_protobuf::deserialize_from_slice` for
/// `switchboard_protos::protos::vrf::VrfAccountData`: parsing is a pure
/// function of the input bytes; the three fields the client reads are moved
/// into `OracleState`, a failed parse becomes `None`. The parser skips an
/// unknown length-delimited field by advancing its cursor by the claimed
/// length with no bounds check, so the call returns only on data whose wire
/// framing has been validated: hence the `requires`, which every caller
/// establishes with `wire_format_ok` first.
#[verifier::external_body]
fn parse_vrf_state(data: &[u8]) -> (r: Option<OracleState>)
    requires
        wire_accepts(data@),
    ensures
        r is Some <==> vrf_state_of(data@) is Some,
        r is Some ==> r->0.view_spec() == vrf_state_of(data@)->0,
{
    match quick_protobuf::deserialize_from_slice::<VrfAccountData>(data) {
        Ok(state) => Some(OracleState {
            randomness: state.value,
            min_confirmations: state.min_proof_confirmations,
            num_confirmations: state.num_proof_confirmations,
        }),
        Err(_) => None,
    }
}

/// Relies on `switchboard_program::SwitchboardAccountType`: the account type
/// tag that marks an oracle randomness account, `TYPE_VRF`, is discriminant 8.
#[verifier::external_body]
fn vrf_account_type_tag() -> (t: u8)
    ensures
        t == 8,
{
    SwitchboardAccountType::TYPE_VRF as u8
}

/// Relies on `solana_program::account_info::AccountInfo::try_borrow_data`:
/// hands back a copy of the account's data bytes, or `None` in the one case
/// the borrow can fail, the data being already mutably borrowed elsewhere.
#[verifier::external_body]
fn account_data<'a>(account: &AccountInfo<'a>) -> (r: Option<Vec<u8>>) {
    match account.try_borrow_data() {
        Ok(data) => Some(data.to_vec()),
        Err(_) => None,
    }
}

/// The oracle client's decision over a parsed state, with one error kind per
/// failure: no stored randomness means the request is unfulfilled, a missing
/// confirmation count means the state is malformed, and fewer confirmations
/// than the oracle requires means the proof is unverified.
pub open spec fn randomness_from_state_spec(state: (Option<Seq<u8>>, Option<int>, Option<int>)) -> Result<Seq<u8>, VrfError> {
    match state.0 {
        None => Err(VrfError::RandomnessNotFulfilled),
        Some(v) => match (state.1, state.2) {
            (Some(min), Some(num)) => if num < min {
                Err(VrfError::VerificationFailed)
            } else {
                Ok(v)
            },
            _ => Err(VrfError::DeserializationError),
        },
    }
}

/// Decide from a parsed oracle state whether its randomness may be used.
pub fn randomness_from_state(state: OracleState) -> (r: Result<Vec<u8>, VrfError>)
    ensures
        r is Ok <==> randomness_from_state_spec(state.view_spec()) is Ok,
        r is Ok ==> r->Ok_0@ == randomness_from_state_spec(state.view_spec())->Ok_0,
        r is Err ==> r->Err_0 == randomness_from_state_spec(state.view_spec())->Err_0,
{
    match state.randomness {
        None => Err(VrfError::RandomnessNotFulfilled),
        Some(v) => match (state.min_confirmations, state.num_confirmations) {
            (Some(min), Some(num)) => if num < min {
                Err(VrfError::VerificationFailed)
            } else {
                Ok(v)
            },
            _ => Err(VrfError::DeserializationError),
        },
    }
}

/// The verified randomness an oracle account with data `data` yields: the
/// data must carry the oracle's randomness-account type tag, hold sound
/// wire framing, parse as an oracle state, and pass the client's
/// fulfillment and verification checks.
pub open spec fn oracle_randomness_spec(data: Seq<u8>) -> Result<Seq<u8>, VrfError> {
    if data.len() == 0 || data[0] != 8 || !wire_accepts(data.skip(1)) {
        Err(VrfError::DeserializationError)
    } else {
        match vrf_state_of(data.skip(1)) {
            None => Err(VrfError::DeserializationError),
            Some(state) => randomness_from_state_spec(state),
        }
    }
}

/// The oracle client over raw account data: retrieve the account's verified
/// randomness, delegating cryptographic trust to the oracle that wrote it.
pub fn get_verified_randomness(data: &[u8]) -> (r: Result<Vec<u8>, VrfError>)
    ensures
        r is Ok <==> oracle_randomness_spec(data@) is Ok,
        r is Ok ==> r->Ok_0@ == oracle_randomness_spec(data@)->Ok_0,
        r is Err ==> r->Err_0 == oracle_randomness_spec(data@)->Err_0,
{
    let tag = vrf_account_type_tag();
    if data.len() == 0 || data[0] != tag {
        return Err(VrfError::DeserializationError);
    }
    let payload = vstd::slice::slice_subrange(data, 1, data.len());
    proof {
        assert(payload@ =~= data@.skip(1));
    }
    if !crate::wire::wire_format_ok(payload) {
        return Err(VrfError::DeserializationError);
    }
    match parse_vrf_state(payload) {
        None => Err(VrfError::DeserializationError),
        Some(state) => randomness_from_state(state),
    }
}

/// The oracle client over an account reference: borrow the oracle account's
/// data and retrieve its verified randomness. Whatever the account holds,
/// a success carries data that passed the client's checks, and a failure is
/// one of the oracle client's error kinds.
pub fn fetch_verified_randomness<'a>(account: &AccountInfo<'a>) -> (r: Result<Vec<u8>, VrfError>)
    ensures
        r is Ok ==> exists|data: Seq<u8>|
            oracle_randomness_spec(data) is Ok && r->Ok_0@ == oracle_randomness_spec(data)->Ok_0,
        r is Err ==> (r->Err_0 == VrfError::DeserializationError
            || r->Err_0 == VrfError::RandomnessNotFulfilled
            || r->Err_0 == VrfError::VerificationFailed),
{
    match account_data(account) {
        None => Err(VrfError::DeserializationError),
        Some(data) => {
            let r = get_verified_randomness(data.as_slice());
            proof {
                if r is Ok {
                    assert(oracle_randomness_spec(data@) is Ok
                        && r->Ok_0@ == oracle_randomness_spec(data@)->Ok_0);
                }
            }
            r
        },
    }
}

} // verus!
