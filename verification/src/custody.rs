//! Custody: the balances an operation settles, and the transfers it asks the
//! token-custody primitive to perform.
//!
//! The library moves nothing itself. A handler computes the balances after
//! the operation and lists the actions that bring them about; the caller
//! performs the actions, all or none.

use vstd::prelude::*;
use crate::address::Address;
use solana_program::program_error::ProgramError;
use crate::error::EscrowError;
use crate::state::EscrowRecord;

verus! {

/// The balances that settling a swap credits or empties, as read from the
/// ledger before the operation.
#[derive(Debug, Copy, Clone, PartialEq, Eq, Structural)]
pub struct Holdings {
    /// Token balance of the temporary token account: the initializer's deposit.
    pub escrowed: u64,
    /// Token balance of the taker's destination account.
    pub taker_destination: u64,
    /// Token balance of the initializer's receiving account.
    pub initializer_receiving: u64,
    /// Native balance of the initializer's main account.
    pub initializer_lamports: u64,
    /// Rent balance of the temporary token account.
    pub temp_lamports: u64,
    /// Rent balance of the escrow record account.
    pub record_lamports: u64,
}

impl Holdings {
    /// The initializer's native balance once both rent balances are returned.
    pub open spec fn spec_rent_returned(self) -> int {
        self.initializer_lamports + self.temp_lamports + self.record_lamports
    }

    /// Whether every credit of an exchange of `amount` fits in 64 bits.
    pub open spec fn spec_exchange_fits(self, amount: u64) -> bool {
        &&& self.initializer_receiving + amount <= u64::MAX
        &&& self.taker_destination + self.escrowed <= u64::MAX
        &&& self.spec_rent_returned() <= u64::MAX
    }

    /// The balances after an exchange of `amount`: the initializer is paid
    /// `amount`, the taker receives the whole deposit, and both rent balances
    /// go to the initializer.
    pub open spec fn spec_after_exchange(self, amount: u64) -> Holdings {
        Holdings {
            escrowed: 0,
            taker_destination: (self.taker_destination + self.escrowed) as u64,
            initializer_receiving: (self.initializer_receiving + amount) as u64,
            initializer_lamports: self.spec_rent_returned() as u64,
            temp_lamports: 0,
            record_lamports: 0,
        }
    }

    /// Whether every credit of a cancellation fits in 64 bits.
    pub open spec fn spec_cancel_fits(self) -> bool {
        &&& self.initializer_receiving + self.escrowed <= u64::MAX
        &&& self.spec_rent_returned() <= u64::MAX
    }

    /// The balances after a cancellation: the whole deposit and both rent
    /// balances go back to the initializer; the taker's side is untouched.
    pub open spec fn spec_after_cancel(self) -> Holdings {
        Holdings {
            escrowed: 0,
            taker_destination: self.taker_destination,
            initializer_receiving: (self.initializer_receiving + self.escrowed) as u64,
            initializer_lamports: self.spec_rent_returned() as u64,
            temp_lamports: 0,
            record_lamports: 0,
        }
    }

    /// The initializer's native balance with both rent balances added, if it
    /// fits.
    fn rent_returned(&self) -> (r: Option<u64>)
        ensures
            r is Some <==> self.spec_rent_returned() <= u64::MAX,
            r matches Some(sum) ==> sum == self.spec_rent_returned(),
    {
        match self.initializer_lamports.checked_add(self.temp_lamports) {
            Some(sum) => sum.checked_add(self.record_lamports),
            None => None,
        }
    }

    /// Computes the balances after an exchange of `amount`, or
    /// `AmountOverflow` where a credit does not fit.
    pub fn settle_exchange(&self, amount: u64) -> (r: Result<Holdings, EscrowError>)
        ensures
            r is Ok <==> self.spec_exchange_fits(amount),
            r matches Ok(after) ==> after == self.spec_after_exchange(amount),
            r matches Err(e) ==> e == EscrowError::AmountOverflow,
    {
        let paid = self.initializer_receiving.checked_add(amount);
        let released = self.taker_destination.checked_add(self.escrowed);
        let rent = self.rent_returned();
        match (paid, released, rent) {
            (Some(initializer_receiving), Some(taker_destination), Some(initializer_lamports)) => Ok(
                Holdings {
                    escrowed: 0,
                    taker_destination,
                    initializer_receiving,
                    initializer_lamports,
                    temp_lamports: 0,
                    record_lamports: 0,
                },
            ),
            _ => Err(EscrowError::AmountOverflow),
        }
    }

    /// Computes the balances after a cancellation, or `AmountOverflow` where
    /// a credit does not fit.
    pub fn settle_cancel(&self) -> (r: Result<Holdings, EscrowError>)
        ensures
            r is Ok <==> self.spec_cancel_fits(),
            r matches Ok(after) ==> after == self.spec_after_cancel(),
            r matches Err(e) ==> e == EscrowError::AmountOverflow,
    {
        let returned = self.initializer_receiving.checked_add(self.escrowed);
        let rent = self.rent_returned();
        match (returned, rent) {
            (Some(initializer_receiving), Some(initializer_lamports)) => Ok(
                Holdings {
                    escrowed: 0,
                    taker_destination: self.taker_destination,
                    initializer_receiving,
                    initializer_lamports,
                    temp_lamports: 0,
                    record_lamports: 0,
                },
            ),
            _ => Err(EscrowError::AmountOverflow),
        }
    }
}

/// One step that the caller asks of the token-custody primitive or of the
/// ledger.
#[derive(Debug, Copy, Clone, PartialEq, Eq)]
pub enum CustodyAction {
    /// Hand `account` over from `current_authority` to `new_authority`.
    SetAuthority { account: Address, current_authority: Address, new_authority: Address },
    /// Move `amount` units from `source` to `destination`, on the word of
    /// `authority`.
    Transfer { source: Address, destination: Address, authority: Address, amount: u64 },
    /// Close `account` and send its rent balance to `destination`, on the
    /// word of `authority`.
    CloseAccount { account: Address, destination: Address, authority: Address },
}

/// What a successful operation leaves behind.
#[derive(Debug, Clone, PartialEq, Eq)]
pub struct Settlement {
    /// The record to store.
    pub record: EscrowRecord,
    /// The custody actions to perform, in order.
    pub actions: Vec<CustodyAction>,
    /// The balances once the actions are performed.
    pub holdings: Holdings,
}

/// A settlement as a mathematical value.
pub struct SettlementView {
    pub record: EscrowRecord,
    pub actions: Seq<CustodyAction>,
    pub holdings: Holdings,
}

impl View for Settlement {
    type V = SettlementView;

    open spec fn view(&self) -> SettlementView {
        SettlementView { record: self.record, actions: self.actions@, holdings: self.holdings }
    }
}

/// The outcome of a handler as a mathematical value.
pub open spec fn spec_outcome(r: Result<Settlement, ProgramError>) -> Result<
    SettlementView,
    ProgramError,
> {
    match r {
        Ok(settlement) => Ok(settlement@),
        Err(e) => Err(e),
    }
}

/// An exchange creates and destroys nothing: the deposit moves whole to the
/// taker, the payment is credited whole to the initializer, and the rent
/// balances move whole to the initializer's main account.
pub proof fn lemma_exchange_conserves(before: Holdings, amount: u64)
    requires
        before.spec_exchange_fits(amount),
    ensures
        before.spec_after_exchange(amount).escrowed + before.spec_after_exchange(
            amount,
        ).taker_destination == before.escrowed + before.taker_destination,
        before.spec_after_exchange(amount).initializer_receiving == before.initializer_receiving
            + amount,
        before.spec_after_exchange(amount).spec_rent_returned() == before.spec_rent_returned(),
{
}

/// A cancellation creates and destroys nothing: the deposit moves whole to
/// the initializer's receiving account, the rent balances to the
/// initializer's main account, and the taker's balance stays as it was.
pub proof fn lemma_cancel_conserves(before: Holdings)
    requires
        before.spec_cancel_fits(),
    ensures
        before.spec_after_cancel().escrowed + before.spec_after_cancel().initializer_receiving
            == before.escrowed + before.initializer_receiving,
        before.spec_after_cancel().taker_destination == before.taker_destination,
        before.spec_after_cancel().spec_rent_returned() == before.spec_rent_returned(),
{
}

} // verus!
