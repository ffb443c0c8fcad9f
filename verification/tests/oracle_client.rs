use switchboard_protos::protos::vrf::VrfAccountData;
use vrf_consumer::errors::VrfError;
use vrf_consumer::oracle::get_verified_randomness;
use vrf_consumer::oracle::randomness_from_state;
use vrf_consumer::oracle::OracleState;

/// Account data as the oracle stores it: the randomness-account type tag,
/// then the length-prefixed protobuf state.
fn vrf_account_bytes(value: Option<Vec<u8>>, min: Option<i32>, num: Option<i32>) -> Vec<u8> {
    let mut state = VrfAccountData::default();
    state.value = value;
    state.min_proof_confirmations = min;
    state.num_proof_confirmations = num;
    let payload = quick_protobuf::serialize_into_vec(&state).expect("serialize");
    let mut data = vec![8u8];
    data.extend_from_slice(&payload);
    data
}

#[test]
fn fulfilled_account_yields_its_randomness() {
    let randomness = vec![0xA0, 0x86, 0x01, 0, 0, 0, 0, 0];
    let data = vrf_account_bytes(Some(randomness.clone()), Some(1), Some(1));
    let got = get_verified_randomness(&data).unwrap();
    assert_eq!(got, randomness);
}

#[test]
fn exactly_enough_confirmations_pass() {
    let data = vrf_account_bytes(Some(vec![7; 8]), Some(3), Some(3));
    assert_eq!(get_verified_randomness(&data).unwrap(), vec![7; 8]);
}

#[test]
fn unfulfilled_account_is_reported() {
    let data = vrf_account_bytes(None, Some(1), Some(1));
    assert!(matches!(
        get_verified_randomness(&data),
        Err(VrfError::RandomnessNotFulfilled)
    ));
}

#[test]
fn underconfirmed_account_fails_verification() {
    let data = vrf_account_bytes(Some(vec![7; 8]), Some(3), Some(2));
    assert!(matches!(
        get_verified_randomness(&data),
        Err(VrfError::VerificationFailed)
    ));
}

#[test]
fn missing_confirmation_counts_are_malformed() {
    let no_min = vrf_account_bytes(Some(vec![7; 8]), None, Some(2));
    assert!(matches!(
        get_verified_randomness(&no_min),
        Err(VrfError::DeserializationError)
    ));
    let no_num = vrf_account_bytes(Some(vec![7; 8]), Some(2), None);
    assert!(matches!(
        get_verified_randomness(&no_num),
        Err(VrfError::DeserializationError)
    ));
}

#[test]
fn wrong_type_tag_is_malformed() {
    let mut data = vrf_account_bytes(Some(vec![7; 8]), Some(1), Some(1));
    data[0] = 1;
    assert!(matches!(
        get_verified_randomness(&data),
        Err(VrfError::DeserializationError)
    ));
}

#[test]
fn empty_account_data_is_malformed() {
    assert!(matches!(
        get_verified_randomness(&[]),
        Err(VrfError::DeserializationError)
    ));
}

#[test]
fn truncated_payload_is_malformed() {
    // The payload announces five bytes of state and carries none.
    let data = [8u8, 0x05];
    assert!(matches!(
        get_verified_randomness(&data),
        Err(VrfError::DeserializationError)
    ));
}

#[test]
fn state_decision_matches_each_kind() {
    let ok = OracleState {
        randomness: Some(vec![1; 8]),
        min_confirmations: Some(2),
        num_confirmations: Some(5),
    };
    assert_eq!(randomness_from_state(ok).unwrap(), vec![1; 8]);

    let unfulfilled = OracleState {
        randomness: None,
        min_confirmations: Some(2),
        num_confirmations: Some(5),
    };
    assert!(matches!(
        randomness_from_state(unfulfilled),
        Err(VrfError::RandomnessNotFulfilled)
    ));

    let unverified = OracleState {
        randomness: Some(vec![1; 8]),
        min_confirmations: Some(6),
        num_confirmations: Some(5),
    };
    assert!(matches!(
        randomness_from_state(unverified),
        Err(VrfError::VerificationFailed)
    ));

    let malformed = OracleState {
        randomness: Some(vec![1; 8]),
        min_confirmations: None,
        num_confirmations: None,
    };
    assert!(matches!(
        randomness_from_state(malformed),
        Err(VrfError::DeserializationError)
    ));
}
