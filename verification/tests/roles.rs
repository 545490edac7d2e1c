use time_lock_escrow::accounts::{
    bind_cancel, bind_exchange, bind_init_escrow, bind_reset_time_lock, check_roles,
    expected_roles, validate_accounts, AccountHandle, Role,
};
use time_lock_escrow::address::Address;
use solana_program::program_error::ProgramError;
use time_lock_escrow::instruction::EscrowInstruction;

fn handle(tag: u8, is_signer: bool, is_writable: bool) -> AccountHandle {
    AccountHandle { key: Address::new([tag; 32]), is_signer, is_writable }
}

fn list_for(roles: &[Role]) -> Vec<AccountHandle> {
    roles
        .iter()
        .enumerate()
        .map(|(i, role)| match role {
            Role::Signer => handle(i as u8 + 1, true, true),
            Role::Writable => handle(i as u8 + 1, false, true),
            Role::ReadOnly => handle(i as u8 + 1, false, false),
        })
        .collect()
}

fn operations() -> Vec<EscrowInstruction> {
    vec![
        EscrowInstruction::InitEscrow { amount: 5 },
        EscrowInstruction::Exchange { amount: 5 },
        EscrowInstruction::Cancel {},
        EscrowInstruction::ResetTimeLock {},
    ]
}

#[test]
fn roles_of_each_operation() {
    let (s, w, r) = (Role::Signer, Role::Writable, Role::ReadOnly);
    assert_eq!(
        expected_roles(&EscrowInstruction::InitEscrow { amount: 0 }),
        vec![s, w, r, w, r, r]
    );
    assert_eq!(
        expected_roles(&EscrowInstruction::Exchange { amount: 0 }),
        vec![s, w, w, w, w, w, w, r]
    );
    assert_eq!(
        expected_roles(&EscrowInstruction::Cancel {}),
        vec![s, w, r, w, r]
    );
    assert_eq!(expected_roles(&EscrowInstruction::ResetTimeLock {}), vec![s, w]);
}

#[test]
fn well_formed_lists_pass() {
    for op in operations() {
        let accounts = list_for(&expected_roles(&op));
        assert_eq!(validate_accounts(&op, &accounts), Ok(()));
    }
}

#[test]
fn extra_accounts_are_not_looked_at() {
    for op in operations() {
        let mut accounts = list_for(&expected_roles(&op));
        accounts.push(handle(99, false, false));
        assert_eq!(validate_accounts(&op, &accounts), Ok(()));
    }
}

#[test]
fn short_lists_are_refused() {
    for op in operations() {
        let full = list_for(&expected_roles(&op));
        for len in 0..full.len() {
            assert_eq!(
                validate_accounts(&op, &full[..len]),
                Err(ProgramError::NotEnoughAccountKeys)
            );
        }
    }
}

#[test]
fn missing_signature_is_refused() {
    for op in operations() {
        let mut accounts = list_for(&expected_roles(&op));
        accounts[0].is_signer = false;
        assert_eq!(validate_accounts(&op, &accounts), Err(ProgramError::MissingRequiredSignature));
    }
}

#[test]
fn read_only_account_in_writable_position_is_refused() {
    for op in operations() {
        let roles = expected_roles(&op);
        for (i, role) in roles.iter().enumerate() {
            if *role == Role::Writable {
                let mut accounts = list_for(&roles);
                accounts[i].is_writable = false;
                assert_eq!(validate_accounts(&op, &accounts), Err(ProgramError::Immutable));
            }
        }
    }
}

#[test]
fn signer_position_need_not_be_writable() {
    for op in operations() {
        let mut accounts = list_for(&expected_roles(&op));
        accounts[0].is_writable = false;
        assert_eq!(validate_accounts(&op, &accounts), Ok(()));
    }
}

#[test]
fn first_defect_decides() {
    let op = EscrowInstruction::Cancel {};
    let mut accounts = list_for(&expected_roles(&op));
    accounts[0].is_signer = false;
    accounts[1].is_writable = false;
    assert_eq!(validate_accounts(&op, &accounts), Err(ProgramError::MissingRequiredSignature));
    accounts[0].is_signer = true;
    accounts[3].is_writable = false;
    assert_eq!(validate_accounts(&op, &accounts), Err(ProgramError::Immutable));
    assert_eq!(
        validate_accounts(&op, &accounts[..4]),
        Err(ProgramError::NotEnoughAccountKeys)
    );
}

#[test]
fn check_roles_with_no_roles_accepts_anything() {
    assert_eq!(check_roles(&[], &[]), Ok(()));
    assert_eq!(check_roles(&[], &[handle(1, false, false)]), Ok(()));
    assert_eq!(check_roles(&[Role::ReadOnly], &[handle(1, false, false)]), Ok(()));
    assert_eq!(
        check_roles(&[Role::ReadOnly, Role::Signer], &[handle(1, false, false), handle(2, false, true)]),
        Err(ProgramError::MissingRequiredSignature)
    );
}

#[test]
fn role_accepts_by_flag() {
    assert_eq!(Role::Signer.accept(&handle(1, true, false)), Ok(()));
    assert_eq!(Role::Signer.accept(&handle(1, false, true)), Err(ProgramError::MissingRequiredSignature));
    assert_eq!(Role::Writable.accept(&handle(1, false, true)), Ok(()));
    assert_eq!(Role::Writable.accept(&handle(1, true, false)), Err(ProgramError::Immutable));
    assert_eq!(Role::ReadOnly.accept(&handle(1, false, false)), Ok(()));
}

#[test]
fn binding_names_accounts_by_position() {
    let key = |tag: u8| Address::new([tag; 32]);
    let init = bind_init_escrow(&list_for(&expected_roles(&EscrowInstruction::InitEscrow { amount: 0 }))).unwrap();
    assert_eq!(init.initializer, key(1));
    assert_eq!(init.temp_token_account, key(2));
    assert_eq!(init.initializer_receiving_account, key(3));
    assert_eq!(init.escrow_record, key(4));
    assert_eq!(init.rent_oracle, key(5));
    assert_eq!(init.token_program, key(6));

    let exchange = bind_exchange(&list_for(&expected_roles(&EscrowInstruction::Exchange { amount: 0 }))).unwrap();
    assert_eq!(exchange.taker, key(1));
    assert_eq!(exchange.taker_source, key(2));
    assert_eq!(exchange.taker_destination, key(3));
    assert_eq!(exchange.temp_token_account, key(4));
    assert_eq!(exchange.initializer, key(5));
    assert_eq!(exchange.initializer_receiving_account, key(6));
    assert_eq!(exchange.escrow_record, key(7));
    assert_eq!(exchange.token_program, key(8));

    let cancel = bind_cancel(&list_for(&expected_roles(&EscrowInstruction::Cancel {}))).unwrap();
    assert_eq!(cancel.initializer, key(1));
    assert_eq!(cancel.temp_token_account, key(2));
    assert_eq!(cancel.initializer_receiving_account, key(3));
    assert_eq!(cancel.escrow_record, key(4));
    assert_eq!(cancel.token_program, key(5));

    let reset = bind_reset_time_lock(&list_for(&expected_roles(&EscrowInstruction::ResetTimeLock {}))).unwrap();
    assert_eq!(reset.initializer, key(1));
    assert_eq!(reset.escrow_record, key(2));
}

#[test]
fn binding_fails_as_the_role_check_does() {
    assert_eq!(bind_init_escrow(&[]), Err(ProgramError::NotEnoughAccountKeys));
    assert_eq!(bind_exchange(&[handle(1, true, true)]), Err(ProgramError::NotEnoughAccountKeys));
    assert_eq!(
        bind_cancel(&[
            handle(1, false, true),
            handle(2, false, true),
            handle(3, false, false),
            handle(4, false, true),
            handle(5, false, false)
        ]),
        Err(ProgramError::MissingRequiredSignature)
    );
    assert_eq!(
        bind_reset_time_lock(&[handle(1, true, true), handle(2, false, false)]),
        Err(ProgramError::Immutable)
    );
}
