use time_lock_escrow::address::Address;
use solana_program::program_error::ProgramError;
use time_lock_escrow::state::{EscrowRecord, RECORD_LEN};

fn sample() -> EscrowRecord {
    EscrowRecord {
        is_initialized: true,
        initializer: Address::new([1u8; 32]),
        temp_token_account: Address::new([2u8; 32]),
        initializer_receiving_account: Address::new([3u8; 32]),
        expected_amount: 1000,
        unlock_time: 1_700_000_000,
        timeout: 1_700_003_600,
    }
}

#[test]
fn record_is_121_bytes() {
    assert_eq!(RECORD_LEN, 121);
    assert_eq!(sample().pack().len(), 121);
    assert_eq!(EscrowRecord::closed().pack().len(), 121);
}

#[test]
fn record_layout_is_fixed() {
    let bytes = sample().pack();
    assert_eq!(bytes[0], 1);
    assert_eq!(&bytes[1..33], &[1u8; 32]);
    assert_eq!(&bytes[33..65], &[2u8; 32]);
    assert_eq!(&bytes[65..97], &[3u8; 32]);
    assert_eq!(&bytes[97..105], &1000u64.to_le_bytes());
    assert_eq!(&bytes[105..113], &1_700_000_000i64.to_le_bytes());
    assert_eq!(&bytes[113..121], &1_700_003_600i64.to_le_bytes());
}

#[test]
fn record_round_trip() {
    let record = sample();
    assert_eq!(EscrowRecord::unpack(&record.pack()), Ok(record));
}

#[test]
fn record_round_trip_negative_and_extreme_times() {
    let mut record = sample();
    record.unlock_time = i64::MIN;
    record.timeout = -1;
    record.expected_amount = u64::MAX;
    let bytes = record.pack();
    assert_eq!(&bytes[105..113], &i64::MIN.to_le_bytes());
    assert_eq!(&bytes[113..121], &[255u8; 8]);
    assert_eq!(EscrowRecord::unpack(&bytes), Ok(record));
    record.unlock_time = 0;
    record.timeout = i64::MAX;
    assert_eq!(EscrowRecord::unpack(&record.pack()), Ok(record));
}

#[test]
fn erased_storage_is_the_closed_record() {
    let closed = EscrowRecord::closed();
    assert!(!closed.is_open());
    assert_eq!(closed.pack(), vec![0u8; 121]);
    assert_eq!(EscrowRecord::unpack(&[0u8; 121]), Ok(closed));
    assert_eq!(closed.initializer, Address::zero());
    assert_eq!(closed.expected_amount, 0);
}

#[test]
fn unpack_rejects_wrong_length() {
    assert_eq!(EscrowRecord::unpack(&[0u8; 120]), Err(ProgramError::InvalidAccountData));
    assert_eq!(EscrowRecord::unpack(&[0u8; 122]), Err(ProgramError::InvalidAccountData));
    assert_eq!(EscrowRecord::unpack(&[]), Err(ProgramError::InvalidAccountData));
}

#[test]
fn unpack_rejects_bad_flag() {
    let mut bytes = sample().pack();
    bytes[0] = 2;
    assert_eq!(EscrowRecord::unpack(&bytes), Err(ProgramError::InvalidAccountData));
    bytes[0] = 255;
    assert_eq!(EscrowRecord::unpack(&bytes), Err(ProgramError::InvalidAccountData));
}

#[test]
fn unpack_rejects_open_record_with_empty_window() {
    let mut record = sample();
    record.timeout = record.unlock_time;
    assert_eq!(EscrowRecord::unpack(&record.pack()), Err(ProgramError::InvalidAccountData));
    record.timeout = record.unlock_time - 1;
    assert_eq!(EscrowRecord::unpack(&record.pack()), Err(ProgramError::InvalidAccountData));
}

#[test]
fn unpack_accepts_any_window_on_a_record_that_is_not_open() {
    let mut record = sample();
    record.is_initialized = false;
    record.timeout = record.unlock_time;
    assert_eq!(EscrowRecord::unpack(&record.pack()), Ok(record));
}

#[test]
fn address_from_slice_needs_32_bytes() {
    assert_eq!(Address::from_slice(&[9u8; 32]), Some(Address::new([9u8; 32])));
    assert_eq!(Address::from_slice(&[9u8; 31]), None);
    assert_eq!(Address::from_slice(&[9u8; 33]), None);
    assert_eq!(Address::from_slice(&[]), None);
}

#[test]
fn address_equality_is_by_bytes() {
    let mut bytes = [0u8; 32];
    bytes[31] = 1;
    assert_eq!(Address::new(bytes), Address::new(bytes));
    assert_ne!(Address::new(bytes), Address::zero());
    assert_eq!(Address::new(bytes).to_bytes(), bytes);
    assert_eq!(Address::zero().to_bytes(), [0u8; 32]);
}

#[test]
fn address_append_to_keeps_what_is_there() {
    let mut buf = vec![7u8, 8];
    let mut bytes = [0u8; 32];
    for (i, b) in bytes.iter_mut().enumerate() {
        *b = i as u8;
    }
    Address::new(bytes).append_to(&mut buf);
    assert_eq!(buf.len(), 34);
    assert_eq!(&buf[..2], &[7u8, 8]);
    assert_eq!(&buf[2..], &bytes);
}
