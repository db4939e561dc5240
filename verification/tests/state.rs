use escrow::address::Address;
use escrow::errors::Failure;
use escrow::state::{Escrow, ESCROW_LEN};

fn sample() -> Escrow {
    Escrow {
        is_initialized: true,
        initializer_pubkey: Address::new([1u8; 32]),
        temp_token_account_pubkey: Address::new([2u8; 32]),
        initializer_token_to_receive_account_pubkey: Address::new([3u8; 32]),
        expected_amount: 0x0102_0304_0506_0708,
    }
}

fn sample_bytes() -> Vec<u8> {
    let mut bytes = vec![1u8];
    bytes.extend_from_slice(&[1u8; 32]);
    bytes.extend_from_slice(&[2u8; 32]);
    bytes.extend_from_slice(&[3u8; 32]);
    bytes.extend_from_slice(&[8, 7, 6, 5, 4, 3, 2, 1]);
    bytes
}

#[test]
fn record_is_105_bytes() {
    assert_eq!(ESCROW_LEN, 105);
    assert_eq!(sample().to_bytes().len(), 105);
}

#[test]
fn layout_is_flag_addresses_amount() {
    assert_eq!(sample().to_bytes(), sample_bytes());
}

#[test]
fn unpack_reads_every_field() {
    assert_eq!(Escrow::unpack(&sample_bytes()), Ok(sample()));
    assert_eq!(Escrow::unpack_unchecked(&sample_bytes()), Ok(sample()));
}

#[test]
fn pack_then_unpack_gives_the_record_back() {
    let mut data = vec![0u8; 105];
    assert_eq!(Escrow::pack(sample(), &mut data), Ok(()));
    assert_eq!(data, sample_bytes());
    assert_eq!(Escrow::unpack(&data), Ok(sample()));
}

#[test]
fn pack_refuses_another_length() {
    let mut short = vec![7u8; 104];
    assert_eq!(Escrow::pack(sample(), &mut short), Err(Failure::InvalidAccountData));
    assert_eq!(short, vec![7u8; 104]);
    let mut long = vec![7u8; 106];
    assert_eq!(Escrow::pack(sample(), &mut long), Err(Failure::InvalidAccountData));
    assert_eq!(long, vec![7u8; 106]);
}

#[test]
fn unpack_refuses_another_length() {
    assert_eq!(Escrow::unpack_unchecked(&[0u8; 104]), Err(Failure::InvalidAccountData));
    assert_eq!(Escrow::unpack_unchecked(&[0u8; 106]), Err(Failure::InvalidAccountData));
    assert_eq!(Escrow::unpack_unchecked(&[]), Err(Failure::InvalidAccountData));
    assert_eq!(Escrow::unpack(&[1u8; 104]), Err(Failure::InvalidAccountData));
}

#[test]
fn unpack_refuses_a_flag_that_is_no_boolean() {
    let mut bytes = sample_bytes();
    bytes[0] = 2;
    assert_eq!(Escrow::unpack_unchecked(&bytes), Err(Failure::InvalidAccountData));
    assert_eq!(Escrow::unpack(&bytes), Err(Failure::InvalidAccountData));
}

#[test]
fn zeroed_data_is_an_uninitialized_record() {
    let record = Escrow::unpack_unchecked(&[0u8; 105]).unwrap();
    assert!(!record.is_initialized());
    assert_eq!(record.expected_amount, 0);
    assert_eq!(record.initializer_pubkey, Address::new([0u8; 32]));
    assert_eq!(Escrow::unpack(&[0u8; 105]), Err(Failure::UninitializedAccount));
}

#[test]
fn uninitialized_record_keeps_its_fields_unchecked() {
    let mut bytes = sample_bytes();
    bytes[0] = 0;
    let record = Escrow::unpack_unchecked(&bytes).unwrap();
    assert!(!record.is_initialized());
    assert_eq!(record.temp_token_account_pubkey, Address::new([2u8; 32]));
    assert_eq!(record.expected_amount, 0x0102_0304_0506_0708);
    assert_eq!(Escrow::unpack(&bytes), Err(Failure::UninitializedAccount));
}

#[test]
fn is_initialized_reads_the_flag() {
    assert!(sample().is_initialized());
    let mut record = sample();
    record.is_initialized = false;
    assert!(!record.is_initialized());
}
