//! The escrow protocol's error taxonomy.

use vstd::prelude::*;
use vstd::std_specs::convert::FromSpecImpl;
use solana_program::program_error::ProgramError;

verus! {

/// Why the protocol refused an operation.
#[derive(Debug, Copy, Clone, PartialEq, Eq, Structural)]
pub enum EscrowError {
    /// Unrecognised tag or undersized payload in the instruction data.
    InvalidInstruction,
    /// The escrow record account holds less than the rent-exempt minimum.
    NotRentExempt,
    /// The taker's amount differs from the amount the record expects.
    ExpectedAmountMismatch,
    /// A credit made by a custody transfer would not fit in 64 bits.
    AmountOverflow,
    /// Exchange attempted before the unlock time.
    InvalidUnlockTime,
    /// Exchange attempted after the timeout.
    InvalidTimeOut,
}

impl EscrowError {
    /// The number under which the host ledger reports this error: the
    /// variant's position in the declaration, starting at zero.
    pub open spec fn spec_code(self) -> u32 {
        match self {
            EscrowError::InvalidInstruction => 0,
            EscrowError::NotRentExempt => 1,
            EscrowError::ExpectedAmountMismatch => 2,
            EscrowError::AmountOverflow => 3,
            EscrowError::InvalidUnlockTime => 4,
            EscrowError::InvalidTimeOut => 5,
        }
    }

    /// The inverse of [`EscrowError::spec_code`] on the codes in use.
    pub open spec fn spec_from_code(code: u32) -> Option<EscrowError> {
        if code == 0 {
            Some(EscrowError::InvalidInstruction)
        } else if code == 1 {
            Some(EscrowError::NotRentExempt)
        } else if code == 2 {
            Some(EscrowError::ExpectedAmountMismatch)
        } else if code == 3 {
            Some(EscrowError::AmountOverflow)
        } else if code == 4 {
            Some(EscrowError::InvalidUnlockTime)
        } else if code == 5 {
            Some(EscrowError::InvalidTimeOut)
        } else {
            None
        }
    }

    /// The text shown for this error.
    pub open spec fn spec_message(self) -> Seq<char> {
        match self {
            EscrowError::InvalidInstruction => "Invalid Instruction"@,
            EscrowError::NotRentExempt => "Not rent exempt"@,
            EscrowError::ExpectedAmountMismatch => "Invalid amount"@,
            EscrowError::AmountOverflow => "Amount is too big"@,
            EscrowError::InvalidUnlockTime => "Cannot exchange before unlock time"@,
            EscrowError::InvalidTimeOut => "Cannot exchange after time out"@,
        }
    }

    /// The custom error code of this error.
    pub fn code(self) -> (c: u32)
        ensures
            c == self.spec_code(),
    {
        match self {
            EscrowError::InvalidInstruction => 0,
            EscrowError::NotRentExempt => 1,
            EscrowError::ExpectedAmountMismatch => 2,
            EscrowError::AmountOverflow => 3,
            EscrowError::InvalidUnlockTime => 4,
            EscrowError::InvalidTimeOut => 5,
        }
    }

    /// The error that a custom error code stands for, if any.
    pub fn from_code(code: u32) -> (e: Option<EscrowError>)
        ensures
            e == Self::spec_from_code(code),
    {
        match code {
            0 => Some(EscrowError::InvalidInstruction),
            1 => Some(EscrowError::NotRentExempt),
            2 => Some(EscrowError::ExpectedAmountMismatch),
            3 => Some(EscrowError::AmountOverflow),
            4 => Some(EscrowError::InvalidUnlockTime),
            5 => Some(EscrowError::InvalidTimeOut),
            _ => None,
        }
    }

    /// The human-readable text of this error.
    pub fn message(self) -> (s: &'static str)
        ensures
            s@ == self.spec_message(),
    {
        match self {
            EscrowError::InvalidInstruction => "Invalid Instruction",
            EscrowError::NotRentExempt => "Not rent exempt",
            EscrowError::ExpectedAmountMismatch => "Invalid amount",
            EscrowError::AmountOverflow => "Amount is too big",
            EscrowError::InvalidUnlockTime => "Cannot exchange before unlock time",
            EscrowError::InvalidTimeOut => "Cannot exchange after time out",
        }
    }
}

/// Every error has a code of its own, and `from_code` recovers the error
/// from it.
pub proof fn lemma_code_round_trip(e: EscrowError)
    ensures
        EscrowError::spec_from_code(e.spec_code()) == Some(e),
{
}

/// The ledger error that stands for a protocol error: a custom error with
/// the error's code.
pub open spec fn spec_program_error(e: EscrowError) -> ProgramError {
    ProgramError::Custom(e.spec_code())
}

impl From<EscrowError> for ProgramError {
    /// Reports a protocol error to the ledger as a custom error.
    fn from(e: EscrowError) -> (r: ProgramError) {
        ProgramError::Custom(e.code())
    }
}

impl FromSpecImpl<EscrowError> for ProgramError {
    open spec fn obeys_from_spec() -> bool {
        true
    }

    open spec fn from_spec(e: EscrowError) -> ProgramError {
        spec_program_error(e)
    }
}

/// The protocol error that a ledger error stands for, if it is a custom
/// error with a code in use.
pub open spec fn spec_escrow_error(e: ProgramError) -> Option<EscrowError> {
    match e {
        ProgramError::Custom(code) => EscrowError::spec_from_code(code),
        _ => None,
    }
}

/// Reporting a protocol error to the ledger loses nothing: the protocol
/// error can be read back from the ledger error, and two protocol errors
/// never share a ledger error.
pub proof fn lemma_program_error_round_trip(e: EscrowError)
    ensures
        spec_escrow_error(spec_program_error(e)) == Some(e),
{
}

} // verus!
