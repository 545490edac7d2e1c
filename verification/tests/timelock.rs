use time_lock_escrow::address::Address;
use time_lock_escrow::error::EscrowError;
use time_lock_escrow::state::EscrowRecord;
use time_lock_escrow::timelock::{check_time_lock, TimeWindow};

const T0: i64 = 1_000;
const T1: i64 = 2_000;

#[test]
fn window_is_closed_at_both_ends() {
    let window = TimeWindow { unlock_time: T0, timeout: T1 };
    assert_eq!(window.check(T0 - 1), Err(EscrowError::InvalidUnlockTime));
    assert_eq!(window.check(T0), Ok(()));
    assert_eq!(window.check(T0 + 1), Ok(()));
    assert_eq!(window.check(T1 - 1), Ok(()));
    assert_eq!(window.check(T1), Ok(()));
    assert_eq!(window.check(T1 + 1), Err(EscrowError::InvalidTimeOut));
}

#[test]
fn window_at_the_ends_of_time() {
    let window = TimeWindow { unlock_time: i64::MIN, timeout: i64::MAX };
    assert_eq!(window.check(i64::MIN), Ok(()));
    assert_eq!(window.check(0), Ok(()));
    assert_eq!(window.check(i64::MAX), Ok(()));
    let late = TimeWindow { unlock_time: i64::MAX - 1, timeout: i64::MAX };
    assert_eq!(late.check(i64::MIN), Err(EscrowError::InvalidUnlockTime));
    let early = TimeWindow { unlock_time: i64::MIN, timeout: i64::MIN + 1 };
    assert_eq!(early.check(i64::MAX), Err(EscrowError::InvalidTimeOut));
}

#[test]
fn window_validity() {
    assert!(TimeWindow { unlock_time: T0, timeout: T1 }.is_valid());
    assert!(TimeWindow { unlock_time: -5, timeout: -4 }.is_valid());
    assert!(!TimeWindow { unlock_time: T0, timeout: T0 }.is_valid());
    assert!(!TimeWindow { unlock_time: T1, timeout: T0 }.is_valid());
}

#[test]
fn time_only_moves_forward_through_the_window() {
    let window = TimeWindow { unlock_time: T0, timeout: T1 };
    let mut seen_open = false;
    let mut seen_expired = false;
    for now in (T0 - 10)..(T1 + 10) {
        match window.check(now) {
            Err(EscrowError::InvalidUnlockTime) => assert!(!seen_open && !seen_expired),
            Ok(()) => {
                assert!(!seen_expired);
                seen_open = true;
            }
            Err(EscrowError::InvalidTimeOut) => seen_expired = true,
            Err(other) => panic!("unexpected error {:?}", other),
        }
    }
    assert!(seen_open && seen_expired);
}

#[test]
fn record_policy_uses_the_record_window() {
    let record = EscrowRecord {
        is_initialized: true,
        initializer: Address::new([1u8; 32]),
        temp_token_account: Address::new([2u8; 32]),
        initializer_receiving_account: Address::new([3u8; 32]),
        expected_amount: 10,
        unlock_time: T0,
        timeout: T1,
    };
    assert_eq!(record.window(), TimeWindow { unlock_time: T0, timeout: T1 });
    assert_eq!(check_time_lock(&record, T0 - 1), Err(EscrowError::InvalidUnlockTime));
    assert_eq!(check_time_lock(&record, T0), Ok(()));
    assert_eq!(check_time_lock(&record, T1), Ok(()));
    assert_eq!(check_time_lock(&record, T1 + 1), Err(EscrowError::InvalidTimeOut));
}
