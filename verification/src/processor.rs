//! The four operation handlers and the dispatcher in front of them.
//!
//! A handler is a function from the state of the ledger, as plain values, to
//! the state after the operation and the custody actions that bring it about.
//! Every check comes before any effect: a handler that fails returns an error
//! and nothing else, so nothing of a failed operation can be persisted.
//!
//! Lifecycle of a record: `InitEscrow` opens erased storage; `ResetTimeLock`
//! keeps an open record open; `Exchange` and `Cancel` erase it again.

use vstd::prelude::*;
use crate::accounts::{
    bind_cancel,
    bind_exchange,
    bind_init_escrow,
    bind_reset_time_lock,
    spec_bind_cancel,
    spec_bind_exchange,
    spec_bind_init_escrow,
    spec_bind_reset_time_lock,
    AccountHandle,
};
use crate::address::Address;
use crate::authority::{find_escrow_authority, spec_escrow_seed, spec_program_address, Authority};
use crate::custody::{spec_outcome, CustodyAction, Holdings, Settlement, SettlementView};
use solana_program::program_error::ProgramError;
use crate::error::{spec_program_error, EscrowError};
use crate::instruction::{spec_unpack, EscrowInstruction};
use crate::state::{EscrowRecord, Timestamp};
use crate::timelock::TimeWindow;

verus! {

/// What an operation reads from the ledger besides its accounts and the
/// record.
#[derive(Debug, Copy, Clone, PartialEq, Eq, Structural)]
pub struct LedgerView {
    /// The ledger's clock.
    pub now: Timestamp,
    /// The least balance that exempts a record account from rent.
    pub rent_minimum: u64,
    /// The window that `InitEscrow` and `ResetTimeLock` are to install.
    pub window: TimeWindow,
    /// The balances that settling the swap touches.
    pub holdings: Holdings,
}

/// `InitEscrow`: opens the record and hands the temporary token account to
/// the custody authority.
///
/// Refused, in this order: by the role check; with
/// `AccountAlreadyInitialized` where the record is open; with `NotRentExempt`
/// where the record account holds less than `rent_minimum`; with
/// `InvalidArgument` where the window is empty.
pub open spec fn spec_init_escrow(
    accounts: Seq<AccountHandle>,
    record: EscrowRecord,
    amount: u64,
    window: TimeWindow,
    rent_minimum: u64,
    holdings: Holdings,
    authority: Address,
) -> Result<SettlementView, ProgramError> {
    match spec_bind_init_escrow(accounts) {
        Err(e) => Err(e),
        Ok(bound) => if record.is_initialized {
            Err(ProgramError::AccountAlreadyInitialized)
        } else if holdings.record_lamports < rent_minimum {
            Err(spec_program_error(EscrowError::NotRentExempt))
        } else if !window.spec_is_valid() {
            Err(ProgramError::InvalidArgument)
        } else {
            Ok(
                SettlementView {
                    record: EscrowRecord {
                        is_initialized: true,
                        initializer: bound.initializer,
                        temp_token_account: bound.temp_token_account,
                        initializer_receiving_account: bound.initializer_receiving_account,
                        expected_amount: amount,
                        unlock_time: window.unlock_time,
                        timeout: window.timeout,
                    },
                    actions: seq![
                        CustodyAction::SetAuthority {
                            account: bound.temp_token_account,
                            current_authority: bound.initializer,
                            new_authority: authority,
                        },
                    ],
                    holdings,
                },
            )
        },
    }
}

/// `Exchange`: the taker pays the initializer, receives the whole deposit,
/// and the record is erased.
///
/// Refused, in this order: by the role check; with `UninitializedAccount`
/// where the record is not open; with `IncorrectAuthority` where the
/// initializer's main account is not the record's initializer; with
/// `InvalidAccountData` where the temporary token account or the receiving
/// account is not the one the record names; with `InvalidUnlockTime` before
/// the unlock time; with `InvalidTimeOut` after the timeout; with
/// `ExpectedAmountMismatch` where `amount` is not the expected amount; with
/// `AmountOverflow` where a credit does not fit in 64 bits.
pub open spec fn spec_exchange(
    accounts: Seq<AccountHandle>,
    record: EscrowRecord,
    amount: u64,
    now: Timestamp,
    holdings: Holdings,
    authority: Address,
) -> Result<SettlementView, ProgramError> {
    match spec_bind_exchange(accounts) {
        Err(e) => Err(e),
        Ok(bound) => if !record.is_initialized {
            Err(ProgramError::UninitializedAccount)
        } else if bound.initializer != record.initializer {
            Err(ProgramError::IncorrectAuthority)
        } else if bound.temp_token_account != record.temp_token_account
            || bound.initializer_receiving_account != record.initializer_receiving_account {
            Err(ProgramError::InvalidAccountData)
        } else {
            match record.spec_window().spec_check(now) {
                Err(e) => Err(spec_program_error(e)),
                Ok(_) => if amount != record.expected_amount {
                    Err(spec_program_error(EscrowError::ExpectedAmountMismatch))
                } else if !holdings.spec_exchange_fits(amount) {
                    Err(spec_program_error(EscrowError::AmountOverflow))
                } else {
                    Ok(
                        SettlementView {
                            record: EscrowRecord::spec_closed(),
                            actions: seq![
                                CustodyAction::Transfer {
                                    source: bound.taker_source,
                                    destination: record.initializer_receiving_account,
                                    authority: bound.taker,
                                    amount,
                                },
                                CustodyAction::Transfer {
                                    source: record.temp_token_account,
                                    destination: bound.taker_destination,
                                    authority,
                                    amount: holdings.escrowed,
                                },
                                CustodyAction::CloseAccount {
                                    account: record.temp_token_account,
                                    destination: record.initializer,
                                    authority,
                                },
                            ],
                            holdings: holdings.spec_after_exchange(amount),
                        },
                    )
                },
            }
        },
    }
}

/// `Cancel`: the whole deposit goes back to the initializer's receiving
/// account and the record is erased. The time window plays no part.
///
/// Refused, in this order: by the role check; with `UninitializedAccount`
/// where the record is not open; with `IncorrectAuthority` where the signer
/// is not the record's initializer; with `InvalidAccountData` where the
/// temporary token account or the receiving account is not the one the
/// record names; with `AmountOverflow` where a credit does not fit in 64
/// bits.
pub open spec fn spec_cancel(
    accounts: Seq<AccountHandle>,
    record: EscrowRecord,
    holdings: Holdings,
    authority: Address,
) -> Result<SettlementView, ProgramError> {
    match spec_bind_cancel(accounts) {
        Err(e) => Err(e),
        Ok(bound) => if !record.is_initialized {
            Err(ProgramError::UninitializedAccount)
        } else if bound.initializer != record.initializer {
            Err(ProgramError::IncorrectAuthority)
        } else if bound.temp_token_account != record.temp_token_account
            || bound.initializer_receiving_account != record.initializer_receiving_account {
            Err(ProgramError::InvalidAccountData)
        } else if !holdings.spec_cancel_fits() {
            Err(spec_program_error(EscrowError::AmountOverflow))
        } else {
            Ok(
                SettlementView {
                    record: EscrowRecord::spec_closed(),
                    actions: seq![
                        CustodyAction::Transfer {
                            source: record.temp_token_account,
                            destination: record.initializer_receiving_account,
                            authority,
                            amount: holdings.escrowed,
                        },
                        CustodyAction::CloseAccount {
                            account: record.temp_token_account,
                            destination: record.initializer,
                            authority,
                        },
                    ],
                    holdings: holdings.spec_after_cancel(),
                },
            )
        },
    }
}

/// `ResetTimeLock`: replaces the window of an open record and touches
/// nothing else.
///
/// Refused, in this order: by the role check; with `UninitializedAccount`
/// where the record is not open; with `IncorrectAuthority` where the signer
/// is not the record's initializer; with `InvalidArgument` where the new
/// window is empty.
pub open spec fn spec_reset_time_lock(
    accounts: Seq<AccountHandle>,
    record: EscrowRecord,
    window: TimeWindow,
    holdings: Holdings,
) -> Result<SettlementView, ProgramError> {
    match spec_bind_reset_time_lock(accounts) {
        Err(e) => Err(e),
        Ok(bound) => if !record.is_initialized {
            Err(ProgramError::UninitializedAccount)
        } else if bound.initializer != record.initializer {
            Err(ProgramError::IncorrectAuthority)
        } else if !window.spec_is_valid() {
            Err(ProgramError::InvalidArgument)
        } else {
            Ok(
                SettlementView {
                    record: EscrowRecord {
                        unlock_time: window.unlock_time,
                        timeout: window.timeout,
                        ..record
                    },
                    actions: Seq::empty(),
                    holdings,
                },
            )
        },
    }
}

/// What `op` does to a record, for the handler that `op` selects.
pub open spec fn spec_dispatch(
    op: EscrowInstruction,
    accounts: Seq<AccountHandle>,
    record: EscrowRecord,
    ledger: LedgerView,
    authority: Address,
) -> Result<SettlementView, ProgramError> {
    match op {
        EscrowInstruction::InitEscrow { amount } => spec_init_escrow(
            accounts,
            record,
            amount,
            ledger.window,
            ledger.rent_minimum,
            ledger.holdings,
            authority,
        ),
        EscrowInstruction::Exchange { amount } => spec_exchange(
            accounts,
            record,
            amount,
            ledger.now,
            ledger.holdings,
            authority,
        ),
        EscrowInstruction::Cancel {  } => spec_cancel(accounts, record, ledger.holdings, authority),
        EscrowInstruction::ResetTimeLock {  } => spec_reset_time_lock(
            accounts,
            record,
            ledger.window,
            ledger.holdings,
        ),
    }
}

/// The accounts whose balances an operation reads: which account stands
/// behind each balance of `Holdings`. A balance with no account is not read
/// by the operation, and may be given as anything.
#[derive(Debug, Copy, Clone, PartialEq, Eq)]
pub struct HoldingAccounts {
    /// The escrow record account: its data is the record, its balance
    /// `record_lamports`.
    pub record: Address,
    /// The account behind `escrowed` and `temp_lamports`.
    pub temp_token_account: Option<Address>,
    /// The account behind `taker_destination`.
    pub taker_destination: Option<Address>,
    /// The account behind `initializer_receiving`.
    pub initializer_receiving: Option<Address>,
    /// The account behind `initializer_lamports`.
    pub initializer: Option<Address>,
}

/// The accounts whose balances `op` reads, for an account list that passes
/// the role check of `op`; the check's error for any other.
pub open spec fn spec_holding_accounts(op: EscrowInstruction, accounts: Seq<AccountHandle>) -> Result<
    HoldingAccounts,
    ProgramError,
> {
    match op {
        EscrowInstruction::InitEscrow { .. } => match spec_bind_init_escrow(accounts) {
            Err(e) => Err(e),
            Ok(bound) => Ok(
                HoldingAccounts {
                    record: bound.escrow_record,
                    temp_token_account: None,
                    taker_destination: None,
                    initializer_receiving: None,
                    initializer: None,
                },
            ),
        },
        EscrowInstruction::Exchange { .. } => match spec_bind_exchange(accounts) {
            Err(e) => Err(e),
            Ok(bound) => Ok(
                HoldingAccounts {
                    record: bound.escrow_record,
                    temp_token_account: Some(bound.temp_token_account),
                    taker_destination: Some(bound.taker_destination),
                    initializer_receiving: Some(bound.initializer_receiving_account),
                    initializer: Some(bound.initializer),
                },
            ),
        },
        EscrowInstruction::Cancel {  } => match spec_bind_cancel(accounts) {
            Err(e) => Err(e),
            Ok(bound) => Ok(
                HoldingAccounts {
                    record: bound.escrow_record,
                    temp_token_account: Some(bound.temp_token_account),
                    taker_destination: None,
                    initializer_receiving: Some(bound.initializer_receiving_account),
                    initializer: Some(bound.initializer),
                },
            ),
        },
        EscrowInstruction::ResetTimeLock {  } => match spec_bind_reset_time_lock(accounts) {
            Err(e) => Err(e),
            Ok(bound) => Ok(
                HoldingAccounts {
                    record: bound.escrow_record,
                    temp_token_account: None,
                    taker_destination: None,
                    initializer_receiving: None,
                    initializer: None,
                },
            ),
        },
    }
}

/// Names the accounts whose balances `op` reads.
pub fn holding_accounts(op: &EscrowInstruction, accounts: &[AccountHandle]) -> (r: Result<
    HoldingAccounts,
    ProgramError,
>)
    ensures
        r == spec_holding_accounts(*op, accounts@),
{
    match op {
        EscrowInstruction::InitEscrow { .. } => match bind_init_escrow(accounts) {
            Err(e) => Err(e),
            Ok(bound) => Ok(
                HoldingAccounts {
                    record: bound.escrow_record,
                    temp_token_account: None,
                    taker_destination: None,
                    initializer_receiving: None,
                    initializer: None,
                },
            ),
        },
        EscrowInstruction::Exchange { .. } => match bind_exchange(accounts) {
            Err(e) => Err(e),
            Ok(bound) => Ok(
                HoldingAccounts {
                    record: bound.escrow_record,
                    temp_token_account: Some(bound.temp_token_account),
                    taker_destination: Some(bound.taker_destination),
                    initializer_receiving: Some(bound.initializer_receiving_account),
                    initializer: Some(bound.initializer),
                },
            ),
        },
        EscrowInstruction::Cancel {  } => match bind_cancel(accounts) {
            Err(e) => Err(e),
            Ok(bound) => Ok(
                HoldingAccounts {
                    record: bound.escrow_record,
                    temp_token_account: Some(bound.temp_token_account),
                    taker_destination: None,
                    initializer_receiving: Some(bound.initializer_receiving_account),
                    initializer: Some(bound.initializer),
                },
            ),
        },
        EscrowInstruction::ResetTimeLock {  } => match bind_reset_time_lock(accounts) {
            Err(e) => Err(e),
            Ok(bound) => Ok(
                HoldingAccounts {
                    record: bound.escrow_record,
                    temp_token_account: None,
                    taker_destination: None,
                    initializer_receiving: None,
                    initializer: None,
                },
            ),
        },
    }
}

/// Handles `InitEscrow`.
pub fn process_init_escrow(
    accounts: &[AccountHandle],
    record: &EscrowRecord,
    amount: u64,
    window: &TimeWindow,
    rent_minimum: u64,
    holdings: &Holdings,
    authority: &Authority,
) -> (r: Result<Settlement, ProgramError>)
    ensures
        spec_outcome(r) == spec_init_escrow(
            accounts@,
            *record,
            amount,
            *window,
            rent_minimum,
            *holdings,
            authority.address,
        ),
{
    let bound = match bind_init_escrow(accounts) {
        Ok(bound) => bound,
        Err(e) => {
            return Err(e);
        },
    };
    if record.is_initialized {
        return Err(ProgramError::AccountAlreadyInitialized);
    }
    if holdings.record_lamports < rent_minimum {
        return Err(ProgramError::from(EscrowError::NotRentExempt));
    }
    if !window.is_valid() {
        return Err(ProgramError::InvalidArgument);
    }
    let opened = EscrowRecord {
        is_initialized: true,
        initializer: bound.initializer,
        temp_token_account: bound.temp_token_account,
        initializer_receiving_account: bound.initializer_receiving_account,
        expected_amount: amount,
        unlock_time: window.unlock_time,
        timeout: window.timeout,
    };
    let actions = vec![
        CustodyAction::SetAuthority {
            account: bound.temp_token_account,
            current_authority: bound.initializer,
            new_authority: authority.address,
        },
    ];
    let settlement = Settlement { record: opened, actions, holdings: *holdings };
    proof {
        let expected = spec_init_escrow(
            accounts@,
            *record,
            amount,
            *window,
            rent_minimum,
            *holdings,
            authority.address,
        );
        assert(settlement@.actions =~= expected->Ok_0.actions);
    }
    Ok(settlement)
}

/// Handles `Exchange`.
pub fn process_exchange(
    accounts: &[AccountHandle],
    record: &EscrowRecord,
    amount: u64,
    now: Timestamp,
    holdings: &Holdings,
    authority: &Authority,
) -> (r: Result<Settlement, ProgramError>)
    ensures
        spec_outcome(r) == spec_exchange(
            accounts@,
            *record,
            amount,
            now,
            *holdings,
            authority.address,
        ),
{
    let bound = match bind_exchange(accounts) {
        Ok(bound) => bound,
        Err(e) => {
            return Err(e);
        },
    };
    if !record.is_initialized {
        return Err(ProgramError::UninitializedAccount);
    }
    if !(bound.initializer == record.initializer) {
        return Err(ProgramError::IncorrectAuthority);
    }
    if !(bound.temp_token_account == record.temp_token_account) || !(
    bound.initializer_receiving_account == record.initializer_receiving_account) {
        return Err(ProgramError::InvalidAccountData);
    }
    match record.window().check(now) {
        Ok(()) => {},
        Err(e) => {
            return Err(ProgramError::from(e));
        },
    }
    if amount != record.expected_amount {
        return Err(ProgramError::from(EscrowError::ExpectedAmountMismatch));
    }
    let after = match holdings.settle_exchange(amount) {
        Ok(after) => after,
        Err(e) => {
            return Err(ProgramError::from(e));
        },
    };
    let actions = vec![
        CustodyAction::Transfer {
            source: bound.taker_source,
            destination: record.initializer_receiving_account,
            authority: bound.taker,
            amount,
        },
        CustodyAction::Transfer {
            source: record.temp_token_account,
            destination: bound.taker_destination,
            authority: authority.address,
            amount: holdings.escrowed,
        },
        CustodyAction::CloseAccount {
            account: record.temp_token_account,
            destination: record.initializer,
            authority: authority.address,
        },
    ];
    let settlement = Settlement { record: EscrowRecord::closed(), actions, holdings: after };
    proof {
        let expected = spec_exchange(
            accounts@,
            *record,
            amount,
            now,
            *holdings,
            authority.address,
        );
        assert(settlement@.actions =~= expected->Ok_0.actions);
    }
    Ok(settlement)
}

/// Handles `Cancel`.
pub fn process_cancel(
    accounts: &[AccountHandle],
    record: &EscrowRecord,
    holdings: &Holdings,
    authority: &Authority,
) -> (r: Result<Settlement, ProgramError>)
    ensures
        spec_outcome(r) == spec_cancel(accounts@, *record, *holdings, authority.address),
{
    let bound = match bind_cancel(accounts) {
        Ok(bound) => bound,
        Err(e) => {
            return Err(e);
        },
    };
    if !record.is_initialized {
        return Err(ProgramError::UninitializedAccount);
    }
    if !(bound.initializer == record.initializer) {
        return Err(ProgramError::IncorrectAuthority);
    }
    if !(bound.temp_token_account == record.temp_token_account) || !(
    bound.initializer_receiving_account == record.initializer_receiving_account) {
        return Err(ProgramError::InvalidAccountData);
    }
    let after = match holdings.settle_cancel() {
        Ok(after) => after,
        Err(e) => {
            return Err(ProgramError::from(e));
        },
    };
    let actions = vec![
        CustodyAction::Transfer {
            source: record.temp_token_account,
            destination: record.initializer_receiving_account,
            authority: authority.address,
            amount: holdings.escrowed,
        },
        CustodyAction::CloseAccount {
            account: record.temp_token_account,
            destination: record.initializer,
            authority: authority.address,
        },
    ];
    let settlement = Settlement { record: EscrowRecord::closed(), actions, holdings: after };
    proof {
        let expected = spec_cancel(accounts@, *record, *holdings, authority.address);
        assert(settlement@.actions =~= expected->Ok_0.actions);
    }
    Ok(settlement)
}

/// Handles `ResetTimeLock`.
pub fn process_reset_time_lock(
    accounts: &[AccountHandle],
    record: &EscrowRecord,
    window: &TimeWindow,
    holdings: &Holdings,
) -> (r: Result<Settlement, ProgramError>)
    ensures
        spec_outcome(r) == spec_reset_time_lock(accounts@, *record, *window, *holdings),
{
    let bound = match bind_reset_time_lock(accounts) {
        Ok(bound) => bound,
        Err(e) => {
            return Err(e);
        },
    };
    if !record.is_initialized {
        return Err(ProgramError::UninitializedAccount);
    }
    if !(bound.initializer == record.initializer) {
        return Err(ProgramError::IncorrectAuthority);
    }
    if !window.is_valid() {
        return Err(ProgramError::InvalidArgument);
    }
    let reset = EscrowRecord {
        is_initialized: record.is_initialized,
        initializer: record.initializer,
        temp_token_account: record.temp_token_account,
        initializer_receiving_account: record.initializer_receiving_account,
        expected_amount: record.expected_amount,
        unlock_time: window.unlock_time,
        timeout: window.timeout,
    };
    let actions: Vec<CustodyAction> = Vec::new();
    let settlement = Settlement { record: reset, actions, holdings: *holdings };
    proof {
        assert(settlement@.actions =~= Seq::<CustodyAction>::empty());
    }
    Ok(settlement)
}

/// Runs the handler that `op` selects, with the custody authority given.
pub fn dispatch(
    op: &EscrowInstruction,
    accounts: &[AccountHandle],
    record: &EscrowRecord,
    ledger: &LedgerView,
    authority: &Authority,
) -> (r: Result<Settlement, ProgramError>)
    ensures
        spec_outcome(r) == spec_dispatch(*op, accounts@, *record, *ledger, authority.address),
{
    match op {
        EscrowInstruction::InitEscrow { amount } => process_init_escrow(
            accounts,
            record,
            *amount,
            &ledger.window,
            ledger.rent_minimum,
            &ledger.holdings,
            authority,
        ),
        EscrowInstruction::Exchange { amount } => process_exchange(
            accounts,
            record,
            *amount,
            ledger.now,
            &ledger.holdings,
            authority,
        ),
        EscrowInstruction::Cancel {  } => process_cancel(
            accounts,
            record,
            &ledger.holdings,
            authority,
        ),
        EscrowInstruction::ResetTimeLock {  } => process_reset_time_lock(
            accounts,
            record,
            &ledger.window,
            &ledger.holdings,
        ),
    }
}

/// Processes one operation of the program `program_id`: decodes `input`,
/// derives the custody authority where the operation moves custody, and runs
/// the handler.
///
/// Undecodable data is refused before any account is looked at. An operation
/// that moves custody is refused with `InvalidSeeds` where the program has no
/// derived authority. In every other case the outcome is that of the
/// handler, with the derived authority.
pub fn process(
    program_id: &Address,
    input: &[u8],
    accounts: &[AccountHandle],
    record: &EscrowRecord,
    ledger: &LedgerView,
) -> (r: Result<Settlement, ProgramError>)
    ensures
        spec_unpack(input@) matches Err(e) ==> spec_outcome(r) == Err::<
            SettlementView,
            ProgramError,
        >(e),
        spec_unpack(input@) matches Ok(op) ==> (if op is ResetTimeLock {
            spec_outcome(r) == spec_reset_time_lock(
                accounts@,
                *record,
                ledger.window,
                ledger.holdings,
            )
        } else {
            match spec_program_address(spec_escrow_seed(), program_id@) {
                None => spec_outcome(r) == Err::<SettlementView, ProgramError>(
                    ProgramError::InvalidSeeds,
                ),
                Some((bytes, bump)) => exists|authority: Address|
                    authority@ == bytes && spec_outcome(r) == #[trigger] spec_dispatch(
                        op,
                        accounts@,
                        *record,
                        *ledger,
                        authority,
                    ),
            }
        }),
{
    let op = match EscrowInstruction::unpack(input) {
        Ok(op) => op,
        Err(e) => {
            return Err(e);
        },
    };
    match op {
        EscrowInstruction::ResetTimeLock {  } => process_reset_time_lock(
            accounts,
            record,
            &ledger.window,
            &ledger.holdings,
        ),
        _ => match find_escrow_authority(program_id) {
            None => Err(ProgramError::InvalidSeeds),
            Some(authority) => {
                let r = dispatch(&op, accounts, record, ledger, &authority);
                assert(authority.address@ == spec_program_address(
                    spec_escrow_seed(),
                    program_id@,
                )->Some_0.0 && spec_outcome(r) == spec_dispatch(
                    op,
                    accounts@,
                    *record,
                    *ledger,
                    authority.address,
                ));
                r
            },
        },
    }
}

} // verus!
