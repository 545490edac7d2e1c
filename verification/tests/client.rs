use solana_program::instruction::AccountMeta;
use solana_program::pubkey::Pubkey;
use time_lock_escrow::accounts::{expected_roles, Role};
use time_lock_escrow::address::Address;
use time_lock_escrow::authority::find_escrow_authority;
use solana_program::program_error::ProgramError;
use time_lock_escrow::error::EscrowError;
use time_lock_escrow::instruction::{
    cancel, exchange, init_escrow, reset_time_lock, EscrowInstruction,
};
use time_lock_escrow::accounts::AccountHandle;
use time_lock_escrow::custody::Holdings;
use time_lock_escrow::processor::{process, LedgerView};
use time_lock_escrow::state::EscrowRecord;
use time_lock_escrow::timelock::TimeWindow;

fn pk(tag: u8) -> Pubkey {
    Pubkey::new_from_array([tag; 32])
}

fn fits(metas: &[AccountMeta], op: &EscrowInstruction) -> bool {
    let roles = expected_roles(op);
    metas.len() == roles.len()
        && metas.iter().zip(roles.iter()).all(|(meta, role)| match role {
            Role::Signer => meta.is_signer,
            Role::Writable => meta.is_writable,
            Role::ReadOnly => true,
        })
}

#[test]
fn init_escrow_instruction() {
    let ix = init_escrow(&pk(10), &pk(1), &pk(2), &pk(3), &pk(4), &pk(5), &pk(6), 1000).unwrap();
    assert_eq!(ix.program_id, pk(10));
    assert_eq!(
        ix.accounts,
        vec![
            AccountMeta::new(pk(1), true),
            AccountMeta::new(pk(2), false),
            AccountMeta::new_readonly(pk(3), false),
            AccountMeta::new(pk(4), false),
            AccountMeta::new_readonly(pk(5), false),
            AccountMeta::new_readonly(pk(6), false),
        ]
    );
    assert_eq!(ix.data, vec![0u8, 0xe8, 0x03, 0, 0, 0, 0, 0, 0]);
    assert!(fits(&ix.accounts, &EscrowInstruction::InitEscrow { amount: 1000 }));
}

#[test]
fn exchange_instruction() {
    let ix =
        exchange(&pk(10), &pk(1), &pk(2), &pk(3), &pk(4), &pk(5), &pk(6), &pk(7), &pk(8), 77)
            .unwrap();
    assert_eq!(ix.program_id, pk(10));
    assert_eq!(
        ix.accounts,
        vec![
            AccountMeta::new(pk(1), true),
            AccountMeta::new(pk(2), false),
            AccountMeta::new(pk(3), false),
            AccountMeta::new(pk(5), false),
            AccountMeta::new(pk(4), false),
            AccountMeta::new(pk(6), false),
            AccountMeta::new(pk(7), false),
            AccountMeta::new_readonly(pk(8), false),
        ]
    );
    assert_eq!(ix.data, vec![1u8, 77, 0, 0, 0, 0, 0, 0, 0]);
    assert!(fits(&ix.accounts, &EscrowInstruction::Exchange { amount: 77 }));
}

#[test]
fn cancel_instruction() {
    let ix = cancel(&pk(10), &pk(1), &pk(2), &pk(3), &pk(4), &pk(5)).unwrap();
    assert_eq!(ix.program_id, pk(10));
    assert_eq!(
        ix.accounts,
        vec![
            AccountMeta::new(pk(1), true),
            AccountMeta::new(pk(2), false),
            AccountMeta::new_readonly(pk(3), false),
            AccountMeta::new(pk(4), false),
            AccountMeta::new_readonly(pk(5), false),
        ]
    );
    assert_eq!(ix.data, vec![2u8]);
    assert!(fits(&ix.accounts, &EscrowInstruction::Cancel {}));
}

#[test]
fn reset_time_lock_instruction_carries_its_own_tag() {
    let ix = reset_time_lock(&pk(10), &pk(1), &pk(2)).unwrap();
    assert_eq!(ix.program_id, pk(10));
    assert_eq!(
        ix.accounts,
        vec![AccountMeta::new(pk(1), true), AccountMeta::new(pk(2), false)]
    );
    assert_eq!(ix.data, vec![3u8]);
    assert_eq!(EscrowInstruction::unpack(&ix.data), Ok(EscrowInstruction::ResetTimeLock {}));
    assert!(fits(&ix.accounts, &EscrowInstruction::ResetTimeLock {}));
}

#[test]
fn built_data_decodes_to_the_operation() {
    let ix = init_escrow(&pk(10), &pk(1), &pk(2), &pk(3), &pk(4), &pk(5), &pk(6), u64::MAX).unwrap();
    assert_eq!(EscrowInstruction::unpack(&ix.data), Ok(EscrowInstruction::InitEscrow { amount: u64::MAX }));
    let ix = exchange(&pk(10), &pk(1), &pk(2), &pk(3), &pk(4), &pk(5), &pk(6), &pk(7), &pk(8), 0).unwrap();
    assert_eq!(EscrowInstruction::unpack(&ix.data), Ok(EscrowInstruction::Exchange { amount: 0 }));
}

#[test]
fn escrow_authority_is_the_derived_address() {
    for tag in [0u8, 1, 10, 200] {
        let program = pk(tag);
        let expected = Pubkey::try_find_program_address(&[b"escrow"], &program);
        let found = find_escrow_authority(&Address::new(program.to_bytes()));
        match (expected, found) {
            (Some((key, bump)), Some(authority)) => {
                assert_eq!(authority.address, Address::new(key.to_bytes()));
                assert_eq!(authority.bump, bump);
                assert_ne!(authority.address, Address::new(program.to_bytes()));
            }
            (None, None) => {}
            (e, f) => panic!("derivations differ: {:?} and {:?}", e, f),
        }
    }
}

#[test]
fn escrow_authority_depends_on_the_program() {
    let a = find_escrow_authority(&Address::new([1u8; 32])).unwrap();
    let b = find_escrow_authority(&Address::new([2u8; 32])).unwrap();
    assert_ne!(a.address, b.address);
    let again = find_escrow_authority(&Address::new([1u8; 32])).unwrap();
    assert_eq!(a, again);
}

fn ledger() -> LedgerView {
    LedgerView {
        now: 500,
        rent_minimum: 10,
        window: TimeWindow { unlock_time: 500, timeout: 600 },
        holdings: Holdings {
            escrowed: 1000,
            taker_destination: 0,
            initializer_receiving: 0,
            initializer_lamports: 1,
            temp_lamports: 2,
            record_lamports: 10,
        },
    }
}

fn handle(tag: u8, is_signer: bool, is_writable: bool) -> AccountHandle {
    AccountHandle { key: Address::new([tag; 32]), is_signer, is_writable }
}

#[test]
fn process_refuses_undecodable_data_first() {
    let program = Address::new([10u8; 32]);
    let r = process(&program, &[9u8], &[], &EscrowRecord::closed(), &ledger());
    assert_eq!(r, Err(ProgramError::from(EscrowError::InvalidInstruction)));
    let r = process(&program, &[0u8, 1, 2], &[], &EscrowRecord::closed(), &ledger());
    assert_eq!(r, Err(ProgramError::from(EscrowError::InvalidInstruction)));
    let r = process(&program, &[2u8], &[], &EscrowRecord::closed(), &ledger());
    assert_eq!(r, Err(ProgramError::NotEnoughAccountKeys));
}

#[test]
fn process_runs_a_whole_swap() {
    let program = Address::new([10u8; 32]);
    let authority = find_escrow_authority(&program).unwrap();
    let init_accounts = vec![
        handle(1, true, true),
        handle(2, false, true),
        handle(3, false, false),
        handle(4, false, true),
        handle(5, false, false),
        handle(6, false, false),
    ];
    let data = EscrowInstruction::InitEscrow { amount: 1000 }.pack();
    let opened = process(&program, &data, &init_accounts, &EscrowRecord::closed(), &ledger()).unwrap();
    assert!(opened.record.is_open());
    assert_eq!(opened.record.expected_amount, 1000);
    assert_eq!(opened.record.unlock_time, 500);
    assert_eq!(opened.record.timeout, 600);
    match opened.actions[..] {
        [time_lock_escrow::custody::CustodyAction::SetAuthority { account, current_authority, new_authority }] => {
            assert_eq!(account, Address::new([2u8; 32]));
            assert_eq!(current_authority, Address::new([1u8; 32]));
            assert_eq!(new_authority, authority.address);
        }
        _ => panic!("unexpected actions {:?}", opened.actions),
    }

    let stored = opened.record.pack();
    let record = EscrowRecord::unpack(&stored).unwrap();
    let exchange_accounts = vec![
        handle(7, true, true),
        handle(8, false, true),
        handle(9, false, true),
        handle(2, false, true),
        handle(1, false, true),
        handle(3, false, true),
        handle(4, false, true),
        handle(6, false, false),
    ];
    let data = EscrowInstruction::Exchange { amount: 1000 }.pack();
    let settled = process(&program, &data, &exchange_accounts, &record, &ledger()).unwrap();
    assert_eq!(settled.record.pack(), vec![0u8; 121]);
    assert_eq!(settled.holdings.taker_destination, 1000);
    assert_eq!(settled.holdings.initializer_receiving, 1000);
    assert_eq!(settled.holdings.initializer_lamports, 13);
    assert_eq!(settled.actions.len(), 3);

    let again = process(&program, &data, &exchange_accounts, &settled.record, &ledger());
    assert_eq!(again, Err(ProgramError::UninitializedAccount));
}

#[test]
fn process_resets_without_deriving_custody() {
    let program = Address::new([10u8; 32]);
    let record = EscrowRecord {
        is_initialized: true,
        initializer: Address::new([1u8; 32]),
        temp_token_account: Address::new([2u8; 32]),
        initializer_receiving_account: Address::new([3u8; 32]),
        expected_amount: 1000,
        unlock_time: 0,
        timeout: 1,
    };
    let accounts = vec![handle(1, true, true), handle(4, false, true)];
    let data = EscrowInstruction::ResetTimeLock {}.pack();
    let reset = process(&program, &data, &accounts, &record, &ledger()).unwrap();
    assert_eq!(reset.record.unlock_time, 500);
    assert_eq!(reset.record.timeout, 600);
    assert_eq!(reset.record.expected_amount, 1000);
    assert_eq!(reset.actions, vec![]);
}
