use solana_program::program_error::ProgramError;
use time_lock_escrow::error::EscrowError;
use time_lock_escrow::instruction::EscrowInstruction;

fn all_operations(amount: u64) -> Vec<EscrowInstruction> {
    vec![
        EscrowInstruction::InitEscrow { amount },
        EscrowInstruction::Exchange { amount },
        EscrowInstruction::Cancel {},
        EscrowInstruction::ResetTimeLock {},
    ]
}

#[test]
fn pack_init_escrow_writes_tag_and_little_endian_amount() {
    let bytes = EscrowInstruction::InitEscrow { amount: 1000 }.pack();
    assert_eq!(bytes, vec![0u8, 0xe8, 0x03, 0, 0, 0, 0, 0, 0]);
}

#[test]
fn pack_exchange_writes_tag_and_little_endian_amount() {
    let bytes = EscrowInstruction::Exchange { amount: 0x0102_0304_0506_0708 }.pack();
    assert_eq!(bytes, vec![1u8, 8, 7, 6, 5, 4, 3, 2, 1]);
}

#[test]
fn pack_cancel_and_reset_are_one_byte() {
    assert_eq!(EscrowInstruction::Cancel {}.pack(), vec![2u8]);
    assert_eq!(EscrowInstruction::ResetTimeLock {}.pack(), vec![3u8]);
}

#[test]
fn round_trip_all_operations() {
    for amount in [0u64, 1, 1000, 0xdead_beef, u64::MAX - 1, u64::MAX] {
        for op in all_operations(amount) {
            assert_eq!(EscrowInstruction::unpack(&op.pack()), Ok(op));
        }
    }
}

#[test]
fn round_trip_zero_and_max_amount() {
    let zero = EscrowInstruction::InitEscrow { amount: 0 };
    assert_eq!(zero.pack(), vec![0u8; 9]);
    assert_eq!(EscrowInstruction::unpack(&zero.pack()), Ok(zero));
    let max = EscrowInstruction::Exchange { amount: u64::MAX };
    assert_eq!(max.pack(), vec![1u8, 255, 255, 255, 255, 255, 255, 255, 255]);
    assert_eq!(EscrowInstruction::unpack(&max.pack()), Ok(max));
}

#[test]
fn unpack_reads_little_endian_amount() {
    assert_eq!(
        EscrowInstruction::unpack(&[1u8, 0x10, 0x27, 0, 0, 0, 0, 0, 0]),
        Ok(EscrowInstruction::Exchange { amount: 10_000 })
    );
    assert_eq!(
        EscrowInstruction::unpack(&[0u8, 0, 0, 0, 0, 0, 0, 0, 0x80]),
        Ok(EscrowInstruction::InitEscrow { amount: 1u64 << 63 })
    );
}

#[test]
fn unpack_rejects_empty_buffer() {
    assert_eq!(EscrowInstruction::unpack(&[]), Err(ProgramError::Custom(0)));
}

#[test]
fn unpack_rejects_unknown_tag() {
    for tag in 4u8..=255 {
        assert_eq!(EscrowInstruction::unpack(&[tag]), Err(ProgramError::Custom(0)));
        assert_eq!(
            EscrowInstruction::unpack(&[tag, 1, 2, 3, 4, 5, 6, 7, 8]),
            Err(ProgramError::Custom(0))
        );
    }
}

#[test]
fn unpack_rejects_short_amount() {
    for tag in [0u8, 1] {
        for len in 0usize..8 {
            let mut bytes = vec![tag];
            bytes.extend(vec![7u8; len]);
            assert_eq!(EscrowInstruction::unpack(&bytes), Err(ProgramError::Custom(0)));
        }
    }
}

#[test]
fn unpack_ignores_trailing_bytes() {
    assert_eq!(
        EscrowInstruction::unpack(&[0u8, 1, 0, 0, 0, 0, 0, 0, 0, 99, 98]),
        Ok(EscrowInstruction::InitEscrow { amount: 1 })
    );
    assert_eq!(EscrowInstruction::unpack(&[2u8, 5, 5]), Ok(EscrowInstruction::Cancel {}));
    assert_eq!(EscrowInstruction::unpack(&[3u8, 5]), Ok(EscrowInstruction::ResetTimeLock {}));
}

#[test]
fn unpack_amount_needs_eight_bytes() {
    assert_eq!(EscrowInstruction::unpack_amount(&[1, 2, 3, 4, 5, 6, 7]), Err(ProgramError::Custom(0)));
    assert_eq!(EscrowInstruction::unpack_amount(&[]), Err(ProgramError::Custom(0)));
    assert_eq!(EscrowInstruction::unpack_amount(&[1, 0, 0, 0, 0, 0, 0, 0]), Ok(1));
    assert_eq!(EscrowInstruction::unpack_amount(&[0, 1, 0, 0, 0, 0, 0, 0, 77]), Ok(256));
}

#[test]
fn error_codes_follow_declaration_order() {
    assert_eq!(EscrowError::InvalidInstruction.code(), 0);
    assert_eq!(EscrowError::NotRentExempt.code(), 1);
    assert_eq!(EscrowError::ExpectedAmountMismatch.code(), 2);
    assert_eq!(EscrowError::AmountOverflow.code(), 3);
    assert_eq!(EscrowError::InvalidUnlockTime.code(), 4);
    assert_eq!(EscrowError::InvalidTimeOut.code(), 5);
}

#[test]
fn error_code_round_trip() {
    for code in 0u32..6 {
        let e = EscrowError::from_code(code).unwrap();
        assert_eq!(e.code(), code);
    }
    assert_eq!(EscrowError::from_code(6), None);
    assert_eq!(EscrowError::from_code(u32::MAX), None);
}

#[test]
fn error_messages() {
    assert_eq!(EscrowError::InvalidInstruction.message(), "Invalid Instruction");
    assert_eq!(EscrowError::NotRentExempt.message(), "Not rent exempt");
    assert_eq!(EscrowError::ExpectedAmountMismatch.message(), "Invalid amount");
    assert_eq!(EscrowError::AmountOverflow.message(), "Amount is too big");
    assert_eq!(EscrowError::InvalidUnlockTime.message(), "Cannot exchange before unlock time");
    assert_eq!(EscrowError::InvalidTimeOut.message(), "Cannot exchange after time out");
}

#[test]
fn protocol_errors_become_custom_ledger_errors() {
    assert_eq!(ProgramError::from(EscrowError::InvalidInstruction), ProgramError::Custom(0));
    assert_eq!(ProgramError::from(EscrowError::NotRentExempt), ProgramError::Custom(1));
    assert_eq!(ProgramError::from(EscrowError::ExpectedAmountMismatch), ProgramError::Custom(2));
    assert_eq!(ProgramError::from(EscrowError::AmountOverflow), ProgramError::Custom(3));
    assert_eq!(ProgramError::from(EscrowError::InvalidUnlockTime), ProgramError::Custom(4));
    assert_eq!(ProgramError::from(EscrowError::InvalidTimeOut), ProgramError::Custom(5));
    let e: ProgramError = EscrowError::InvalidTimeOut.into();
    assert_eq!(e, ProgramError::Custom(5));
}
