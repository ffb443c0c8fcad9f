use vrf_consumer::buffer::RandomnessBuffer;
use vrf_consumer::errors::VrfError;
use vrf_consumer::reduce::reduce;
use vrf_consumer::words::first_word;

#[test]
fn first_word_reads_little_endian() {
    assert_eq!(first_word(&[0x01, 0, 0, 0, 0, 0, 0, 0]), 1);
    assert_eq!(first_word(&[0, 0, 0, 0, 0, 0, 0, 0x01]), 1u64 << 56);
    assert_eq!(first_word(&[0x78, 0x56, 0x34, 0x12, 0, 0, 0, 0]), 0x1234_5678);
    assert_eq!(
        first_word(&[0xEF, 0xCD, 0xAB, 0x89, 0x67, 0x45, 0x23, 0x01]),
        0x0123_4567_89AB_CDEF
    );
}

#[test]
fn reduce_takes_first_word_modulo_bound() {
    // First 8 bytes are little-endian 12345; the second word is ignored.
    let bytes = [0x39, 0x30, 0, 0, 0, 0, 0, 0, 0xFF, 0xFF, 0xFF, 0xFF, 0xFF, 0xFF, 0xFF, 0xFF];
    assert_eq!(reduce(&bytes, 25000), 12345);
}

#[test]
fn reduce_wraps_at_the_bound() {
    // 25000 = 0x61A8: the first word equals the bound exactly.
    let bytes = [0xA8, 0x61, 0, 0, 0, 0, 0, 0];
    assert_eq!(reduce(&bytes, 25000), 0);
}

#[test]
fn reduce_of_max_word_is_exact() {
    // (2^64 - 1) mod 25000 == 1615, exact arithmetic on the full word.
    let bytes = [0xFF; 8];
    assert_eq!(reduce(&bytes, 25000), 1615);
}

#[test]
fn reduce_is_deterministic() {
    let bytes = [0x11, 0x22, 0x33, 0x44, 0x55, 0x66, 0x77, 0x88];
    assert_eq!(reduce(&bytes, 25000), reduce(&bytes, 25000));
}

#[test]
fn reduce_reads_only_the_first_word() {
    let short = [9, 8, 7, 6, 5, 4, 3, 2];
    let mut long = short.to_vec();
    long.extend_from_slice(&[0xAA; 16]);
    assert_eq!(reduce(&short, 25000), reduce(&long, 25000));
}

#[test]
fn reduce_stays_in_range() {
    let bytes = [0xFF, 0xFE, 0xFD, 0xFC, 0xFB, 0xFA, 0xF9, 0xF8];
    for max in [1u64, 2, 7, 25000, u64::MAX] {
        assert!(reduce(&bytes, max) < max);
    }
}

#[test]
fn buffer_accepts_whole_positive_words() {
    assert!(RandomnessBuffer::new(vec![0; 8]).is_ok());
    assert!(RandomnessBuffer::new(vec![1; 32]).is_ok());
}

#[test]
fn buffer_rejects_ill_sized_bytes() {
    assert!(matches!(
        RandomnessBuffer::new(Vec::new()),
        Err(VrfError::InvalidConfiguration)
    ));
    assert!(matches!(
        RandomnessBuffer::new(vec![1, 2, 3]),
        Err(VrfError::InvalidConfiguration)
    ));
    assert!(matches!(
        RandomnessBuffer::new(vec![0; 12]),
        Err(VrfError::InvalidConfiguration)
    ));
}

#[test]
fn buffer_reduces_its_first_word() {
    let buffer = RandomnessBuffer::new(vec![0x39, 0x30, 0, 0, 0, 0, 0, 0]).unwrap();
    assert_eq!(buffer.len(), 8);
    assert_eq!(buffer.first_word(), 12345);
    assert_eq!(buffer.reduce(25000), 12345);
}

#[test]
fn error_codes_are_distinct() {
    let kinds = [
        VrfError::MissingAccount,
        VrfError::InvalidAccountOwner,
        VrfError::RandomnessNotFulfilled,
        VrfError::VerificationFailed,
        VrfError::DeserializationError,
        VrfError::InvalidConfiguration,
    ];
    for (i, a) in kinds.iter().enumerate() {
        for (j, b) in kinds.iter().enumerate() {
            assert_eq!(i == j, a.code() == b.code());
        }
    }
    assert_eq!(VrfError::MissingAccount.code(), 1);
    assert_eq!(VrfError::InvalidConfiguration.code(), 6);
}
