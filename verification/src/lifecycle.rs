//! What holds of the protocol as a whole: laws that relate the handlers to
//! the time-lock policy, to the record's invariant and to each other. Each
//! is stated over the functions that the handlers' contracts are stated in.

use vstd::prelude::*;
use crate::accounts::{
    spec_bind_cancel,
    spec_bind_exchange,
    spec_bind_reset_time_lock,
    AccountHandle,
};
use crate::address::Address;
use crate::custody::{Holdings, SettlementView};
use solana_program::program_error::ProgramError;
use crate::error::{spec_program_error, EscrowError};
use crate::processor::{spec_cancel, spec_exchange, spec_init_escrow, spec_reset_time_lock};
use crate::state::{EscrowRecord, Timestamp};
use crate::timelock::TimeWindow;

verus! {

/// Whether `accounts` is an account list of `Exchange` for the open swap
/// that `record` describes: it passes the role check, the record is open, and
/// the initializer's accounts and the temporary token account in the list are
/// those that the record names.
pub open spec fn spec_exchange_admissible(accounts: Seq<AccountHandle>, record: EscrowRecord) -> bool {
    &&& record.is_initialized
    &&& spec_bind_exchange(accounts) matches Ok(bound)
    &&& bound.initializer == record.initializer
    &&& bound.temp_token_account == record.temp_token_account
    &&& bound.initializer_receiving_account == record.initializer_receiving_account
}

/// Whether `accounts` is an account list of `Cancel` for the open swap that
/// `record` describes, as `spec_exchange_admissible` is for `Exchange`.
pub open spec fn spec_cancel_admissible(accounts: Seq<AccountHandle>, record: EscrowRecord) -> bool {
    &&& record.is_initialized
    &&& spec_bind_cancel(accounts) matches Ok(bound)
    &&& bound.initializer == record.initializer
    &&& bound.temp_token_account == record.temp_token_account
    &&& bound.initializer_receiving_account == record.initializer_receiving_account
}

/// With everything else in order, an exchange before the unlock
/// time fails with `InvalidUnlockTime`, one after the timeout fails with
/// `InvalidTimeOut`, and one in between, both ends included, succeeds.
pub proof fn lemma_exchange_time_lock(
    accounts: Seq<AccountHandle>,
    record: EscrowRecord,
    amount: u64,
    now: Timestamp,
    holdings: Holdings,
    authority: Address,
)
    requires
        record.wf(),
        spec_exchange_admissible(accounts, record),
    ensures
        now < record.unlock_time ==> spec_exchange(
            accounts,
            record,
            amount,
            now,
            holdings,
            authority,
        ) == Err::<SettlementView, ProgramError>(
            spec_program_error(EscrowError::InvalidUnlockTime),
        ),
        now > record.timeout ==> spec_exchange(accounts, record, amount, now, holdings, authority)
            == Err::<SettlementView, ProgramError>(
            spec_program_error(EscrowError::InvalidTimeOut),
        ),
        record.unlock_time <= now <= record.timeout && amount == record.expected_amount
            && holdings.spec_exchange_fits(amount) ==> spec_exchange(
            accounts,
            record,
            amount,
            now,
            holdings,
            authority,
        ) is Ok,
{
}

/// An exchange succeeds only inside the window of the record, whatever else
/// it is given.
pub proof fn lemma_exchange_only_in_window(
    accounts: Seq<AccountHandle>,
    record: EscrowRecord,
    amount: u64,
    now: Timestamp,
    holdings: Holdings,
    authority: Address,
)
    requires
        spec_exchange(accounts, record, amount, now, holdings, authority) is Ok,
    ensures
        record.is_initialized,
        record.unlock_time <= now <= record.timeout,
        amount == record.expected_amount,
{
}

/// An exchange with an amount other than the expected one never
/// succeeds, at any time; inside the window, with everything else in
/// order, it fails with `ExpectedAmountMismatch`.
pub proof fn lemma_exchange_amount_exact(
    accounts: Seq<AccountHandle>,
    record: EscrowRecord,
    amount: u64,
    now: Timestamp,
    holdings: Holdings,
    authority: Address,
)
    requires
        amount != record.expected_amount,
    ensures
        spec_exchange(accounts, record, amount, now, holdings, authority) is Err,
        spec_exchange_admissible(accounts, record) && record.unlock_time <= now <= record.timeout
            ==> spec_exchange(accounts, record, amount, now, holdings, authority) == Err::<
            SettlementView,
            ProgramError,
        >(spec_program_error(EscrowError::ExpectedAmountMismatch)),
{
}

/// Only the initializer cancels: a cancellation signed by anyone but the
/// record's initializer is refused, and a refusal changes nothing, for it
/// carries no record and no action. Where the account list passes the role
/// check and the record is open, the error is `IncorrectAuthority`.
pub proof fn lemma_cancel_needs_initializer(
    accounts: Seq<AccountHandle>,
    record: EscrowRecord,
    holdings: Holdings,
    authority: Address,
)
    requires
        accounts.len() > 0 ==> accounts[0].key != record.initializer,
    ensures
        spec_cancel(accounts, record, holdings, authority) is Err,
        record.is_initialized && spec_bind_cancel(accounts) is Ok ==> spec_cancel(
            accounts,
            record,
            holdings,
            authority,
        ) == Err::<SettlementView, ProgramError>(ProgramError::IncorrectAuthority),
{
}

/// Only the initializer resets: a reset signed by anyone but the
/// record's initializer is refused, and a refusal changes nothing. Where the
/// account list passes the role check and the record is open, the error is
/// `IncorrectAuthority`.
pub proof fn lemma_reset_needs_initializer(
    accounts: Seq<AccountHandle>,
    record: EscrowRecord,
    window: TimeWindow,
    holdings: Holdings,
)
    requires
        accounts.len() > 0 ==> accounts[0].key != record.initializer,
    ensures
        spec_reset_time_lock(accounts, record, window, holdings) is Err,
        record.is_initialized && spec_bind_reset_time_lock(accounts) is Ok
            ==> spec_reset_time_lock(accounts, record, window, holdings) == Err::<
            SettlementView,
            ProgramError,
        >(ProgramError::IncorrectAuthority),
{
}

/// Every operation that succeeds was signed: the account in the first
/// position carries a verified signature.
pub proof fn lemma_success_is_signed(
    accounts: Seq<AccountHandle>,
    record: EscrowRecord,
    amount: u64,
    now: Timestamp,
    window: TimeWindow,
    rent_minimum: u64,
    holdings: Holdings,
    authority: Address,
)
    ensures
        spec_init_escrow(accounts, record, amount, window, rent_minimum, holdings, authority)
            is Ok ==> accounts.len() >= 6 && accounts[0].is_signer,
        spec_exchange(accounts, record, amount, now, holdings, authority) is Ok ==> accounts.len()
            >= 8 && accounts[0].is_signer,
        spec_cancel(accounts, record, holdings, authority) is Ok ==> accounts.len() >= 5
            && accounts[0].is_signer && accounts[0].key == record.initializer,
        spec_reset_time_lock(accounts, record, window, holdings) is Ok ==> accounts.len() >= 2
            && accounts[0].is_signer && accounts[0].key == record.initializer,
{
    reveal_with_fuel(crate::accounts::spec_check_from, 2);
}

/// A successful exchange or cancellation leaves the erased record,
/// which is not open.
pub proof fn lemma_settling_closes(
    accounts: Seq<AccountHandle>,
    record: EscrowRecord,
    amount: u64,
    now: Timestamp,
    holdings: Holdings,
    authority: Address,
)
    ensures
        spec_exchange(accounts, record, amount, now, holdings, authority) matches Ok(settlement)
            ==> settlement.record == EscrowRecord::spec_closed()
            && !settlement.record.is_initialized,
        spec_cancel(accounts, record, holdings, authority) matches Ok(settlement)
            ==> settlement.record == EscrowRecord::spec_closed()
            && !settlement.record.is_initialized,
{
}

/// Closure is final: against a record that is not open, every exchange and
/// every cancellation fails, whatever they are given; with an account list
/// that passes the role check the error is `UninitializedAccount`.
pub proof fn lemma_closed_refuses(
    accounts: Seq<AccountHandle>,
    record: EscrowRecord,
    amount: u64,
    now: Timestamp,
    holdings: Holdings,
    authority: Address,
)
    requires
        !record.is_initialized,
    ensures
        spec_exchange(accounts, record, amount, now, holdings, authority) is Err,
        spec_cancel(accounts, record, holdings, authority) is Err,
        spec_bind_exchange(accounts) is Ok ==> spec_exchange(
            accounts,
            record,
            amount,
            now,
            holdings,
            authority,
        ) == Err::<SettlementView, ProgramError>(ProgramError::UninitializedAccount),
        spec_bind_cancel(accounts) is Ok ==> spec_cancel(accounts, record, holdings, authority)
            == Err::<SettlementView, ProgramError>(ProgramError::UninitializedAccount),
{
}

/// The record's invariant: whatever a handler leaves behind is well formed.
/// `InitEscrow` leaves an open record with the window and the amount it was
/// given, naming the accounts of the list; `ResetTimeLock` leaves an open
/// record that differs from the old one in its window alone.
pub proof fn lemma_handlers_keep_invariant(
    accounts: Seq<AccountHandle>,
    record: EscrowRecord,
    amount: u64,
    now: Timestamp,
    window: TimeWindow,
    rent_minimum: u64,
    holdings: Holdings,
    authority: Address,
)
    ensures
        spec_init_escrow(
            accounts,
            record,
            amount,
            window,
            rent_minimum,
            holdings,
            authority,
        ) matches Ok(settlement) ==> {
            &&& settlement.record.wf()
            &&& settlement.record.is_initialized
            &&& settlement.record.unlock_time < settlement.record.timeout
            &&& settlement.record.spec_window() == window
            &&& settlement.record.expected_amount == amount
            &&& settlement.record.initializer == accounts[0].key
            &&& settlement.record.temp_token_account == accounts[1].key
            &&& settlement.record.initializer_receiving_account == accounts[2].key
            &&& settlement.holdings == holdings
        },
        spec_reset_time_lock(accounts, record, window, holdings) matches Ok(settlement) ==> {
            &&& settlement.record.wf()
            &&& settlement.record.is_initialized
            &&& settlement.record.spec_window() == window
            &&& settlement.record == (EscrowRecord {
                unlock_time: window.unlock_time,
                timeout: window.timeout,
                ..record
            })
            &&& settlement.actions.len() == 0
            &&& settlement.holdings == holdings
        },
        spec_exchange(accounts, record, amount, now, holdings, authority) matches Ok(settlement)
            ==> settlement.record.wf(),
        spec_cancel(accounts, record, holdings, authority) matches Ok(settlement)
            ==> settlement.record.wf(),
{
}

/// The lifecycle: `InitEscrow` succeeds only on a record that is not open;
/// `ResetTimeLock`, `Exchange` and `Cancel` succeed only on an open one.
pub proof fn lemma_lifecycle(
    accounts: Seq<AccountHandle>,
    record: EscrowRecord,
    amount: u64,
    now: Timestamp,
    window: TimeWindow,
    rent_minimum: u64,
    holdings: Holdings,
    authority: Address,
)
    ensures
        spec_init_escrow(accounts, record, amount, window, rent_minimum, holdings, authority)
            is Ok ==> !record.is_initialized && holdings.record_lamports >= rent_minimum,
        spec_reset_time_lock(accounts, record, window, holdings) is Ok ==> record.is_initialized,
        spec_exchange(accounts, record, amount, now, holdings, authority) is Ok
            ==> record.is_initialized,
        spec_cancel(accounts, record, holdings, authority) is Ok ==> record.is_initialized,
{
}

/// `Cancel` has no time-lock: its outcome is the same at every time, for the
/// clock is not among what it is given; and with everything else in order it
/// succeeds.
pub proof fn lemma_cancel_always_available(
    accounts: Seq<AccountHandle>,
    record: EscrowRecord,
    holdings: Holdings,
    authority: Address,
)
    requires
        spec_cancel_admissible(accounts, record),
        holdings.spec_cancel_fits(),
    ensures
        spec_cancel(accounts, record, holdings, authority) matches Ok(settlement)
            && settlement.holdings.initializer_receiving == holdings.initializer_receiving
            + holdings.escrowed && settlement.holdings.escrowed == 0,
{
}

/// A reset reopens a missed trade: after `ResetTimeLock` installs a window
/// that holds `now`, an exchange at `now` that was in order but for its
/// timing succeeds.
pub proof fn lemma_reset_reopens(
    reset_accounts: Seq<AccountHandle>,
    exchange_accounts: Seq<AccountHandle>,
    record: EscrowRecord,
    window: TimeWindow,
    now: Timestamp,
    holdings: Holdings,
    authority: Address,
)
    requires
        spec_reset_time_lock(reset_accounts, record, window, holdings) is Ok,
        spec_exchange_admissible(exchange_accounts, record),
        window.unlock_time <= now <= window.timeout,
        holdings.spec_exchange_fits(record.expected_amount),
    ensures
        spec_exchange(
            exchange_accounts,
            spec_reset_time_lock(reset_accounts, record, window, holdings)->Ok_0.record,
            record.expected_amount,
            now,
            holdings,
            authority,
        ) is Ok,
{
}

/// A balance that an operation does not read does not decide its outcome:
/// `InitEscrow` reads the record account's balance alone, and `Cancel` does
/// not read the taker's.
pub proof fn lemma_unread_balances(
    accounts: Seq<AccountHandle>,
    record: EscrowRecord,
    amount: u64,
    window: TimeWindow,
    rent_minimum: u64,
    a: Holdings,
    b: Holdings,
    authority: Address,
)
    ensures
        a.record_lamports == b.record_lamports ==> (spec_init_escrow(
            accounts,
            record,
            amount,
            window,
            rent_minimum,
            a,
            authority,
        ) is Ok <==> spec_init_escrow(accounts, record, amount, window, rent_minimum, b, authority)
            is Ok),
        a == (Holdings { taker_destination: a.taker_destination, ..b }) ==> (spec_cancel(
            accounts,
            record,
            a,
            authority,
        ) is Ok <==> spec_cancel(accounts, record, b, authority) is Ok),
        spec_reset_time_lock(accounts, record, window, a) is Ok <==> spec_reset_time_lock(
            accounts,
            record,
            window,
            b,
        ) is Ok,
{
}

} // verus!
