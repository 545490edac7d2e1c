//! The four operations of the escrow protocol and their wire format.
//!
//! An encoded operation is one tag byte, followed for `InitEscrow` and
//! `Exchange` by the amount as eight little-endian bytes.

use vstd::prelude::*;
use vstd::bytes::*;
use vstd::slice::*;
use solana_program::instruction::{AccountMeta, Instruction};
use solana_program::program_error::ProgramError;
use solana_program::pubkey::Pubkey;
use crate::accounts::{
    spec_cancel_roles,
    spec_exchange_roles,
    spec_init_escrow_roles,
    spec_reset_time_lock_roles,
    Role,
};
use crate::error::{spec_program_error, EscrowError};

verus! {

/// Wire tag of `InitEscrow`.
pub const TAG_INIT_ESCROW: u8 = 0;

/// Wire tag of `Exchange`.
pub const TAG_EXCHANGE: u8 = 1;

/// Wire tag of `Cancel`.
pub const TAG_CANCEL: u8 = 2;

/// Wire tag of `ResetTimeLock`.
pub const TAG_RESET_TIME_LOCK: u8 = 3;

/// Number of bytes of an encoded amount.
pub const AMOUNT_LEN: usize = 8;

/// An operation of the escrow protocol.
#[derive(Debug, Copy, Clone, PartialEq, Eq, Structural)]
pub enum EscrowInstruction {
    /// Opens an escrow.
    ///
    /// Accounts expected:
    ///
    /// 0. `[signer]` The initializer of the escrow
    /// 1. `[writable]` The temporary token account, funded beforehand and owned by the initializer
    /// 2. `[]` The initializer's token account for the asset they will receive
    /// 3. `[writable]` The escrow record account
    /// 4. `[]` The rent oracle
    /// 5. `[]` The token program
    InitEscrow {
        /// The amount the initializer expects to receive of the counter-asset.
        amount: u64,
    },
    /// Takes the trade.
    ///
    /// Accounts expected:
    ///
    /// 0. `[signer]` The taker
    /// 1. `[writable]` The taker's token account for the asset they send
    /// 2. `[writable]` The taker's token account for the asset they receive
    /// 3. `[writable]` The temporary token account held by the program
    /// 4. `[writable]` The initializer's main account, which receives the rent
    /// 5. `[writable]` The initializer's token account that receives the counter-asset
    /// 6. `[writable]` The escrow record account
    /// 7. `[]` The token program
    Exchange {
        /// The amount the taker pays, which must be the amount the record expects.
        amount: u64,
    },
    /// Aborts the escrow and returns the deposit.
    ///
    /// Accounts expected:
    ///
    /// 0. `[signer]` The initializer
    /// 1. `[writable]` The temporary token account held by the program
    /// 2. `[]` The initializer's token account that receives the deposit
    /// 3. `[writable]` The escrow record account
    /// 4. `[]` The token program
    Cancel {},
    /// Replaces the time window of an open escrow.
    ///
    /// Accounts expected:
    ///
    /// 0. `[signer]` The initializer
    /// 1. `[writable]` The escrow record account
    ResetTimeLock {},
}

/// The amount that the first eight bytes of `payload` encode, if there are
/// that many.
pub open spec fn spec_unpack_amount(payload: Seq<u8>) -> Result<u64, ProgramError> {
    if payload.len() >= AMOUNT_LEN {
        Ok(spec_u64_from_le_bytes(payload.subrange(0, AMOUNT_LEN as int)))
    } else {
        Err(spec_program_error(EscrowError::InvalidInstruction))
    }
}

/// The operation that `input` encodes: its first byte is the tag, the bytes
/// behind it the payload. Bytes behind what the operation needs are ignored.
pub open spec fn spec_unpack(input: Seq<u8>) -> Result<EscrowInstruction, ProgramError> {
    if input.len() == 0 {
        Err(spec_program_error(EscrowError::InvalidInstruction))
    } else {
        let tag = input[0];
        let payload = input.subrange(1, input.len() as int);
        if tag == TAG_INIT_ESCROW {
            match spec_unpack_amount(payload) {
                Ok(amount) => Ok(EscrowInstruction::InitEscrow { amount }),
                Err(e) => Err(e),
            }
        } else if tag == TAG_EXCHANGE {
            match spec_unpack_amount(payload) {
                Ok(amount) => Ok(EscrowInstruction::Exchange { amount }),
                Err(e) => Err(e),
            }
        } else if tag == TAG_CANCEL {
            Ok(EscrowInstruction::Cancel {  })
        } else if tag == TAG_RESET_TIME_LOCK {
            Ok(EscrowInstruction::ResetTimeLock {  })
        } else {
            Err(spec_program_error(EscrowError::InvalidInstruction))
        }
    }
}

impl EscrowInstruction {
    /// The wire tag of this operation.
    pub open spec fn spec_tag(self) -> u8 {
        match self {
            EscrowInstruction::InitEscrow { .. } => TAG_INIT_ESCROW,
            EscrowInstruction::Exchange { .. } => TAG_EXCHANGE,
            EscrowInstruction::Cancel {  } => TAG_CANCEL,
            EscrowInstruction::ResetTimeLock {  } => TAG_RESET_TIME_LOCK,
        }
    }

    /// The wire form of this operation.
    pub open spec fn spec_pack(self) -> Seq<u8> {
        match self {
            EscrowInstruction::InitEscrow { amount } => seq![TAG_INIT_ESCROW] + spec_u64_to_le_bytes(
                amount,
            ),
            EscrowInstruction::Exchange { amount } => seq![TAG_EXCHANGE] + spec_u64_to_le_bytes(
                amount,
            ),
            EscrowInstruction::Cancel {  } => seq![TAG_CANCEL],
            EscrowInstruction::ResetTimeLock {  } => seq![TAG_RESET_TIME_LOCK],
        }
    }

    /// Decodes a byte buffer into an operation.
    ///
    /// Fails with `InvalidInstruction` on an empty buffer, on a tag that
    /// names no operation, and on an amount shorter than eight bytes.
    pub fn unpack(input: &[u8]) -> (r: Result<Self, ProgramError>)
        ensures
            r == spec_unpack(input@),
    {
        if input.len() == 0 {
            return Err(ProgramError::from(EscrowError::InvalidInstruction));
        }
        let tag = input[0];
        let rest = slice_subrange(input, 1, input.len());
        if tag == TAG_INIT_ESCROW {
            match Self::unpack_amount(rest) {
                Ok(amount) => Ok(EscrowInstruction::InitEscrow { amount }),
                Err(e) => Err(e),
            }
        } else if tag == TAG_EXCHANGE {
            match Self::unpack_amount(rest) {
                Ok(amount) => Ok(EscrowInstruction::Exchange { amount }),
                Err(e) => Err(e),
            }
        } else if tag == TAG_CANCEL {
            Ok(EscrowInstruction::Cancel {  })
        } else if tag == TAG_RESET_TIME_LOCK {
            Ok(EscrowInstruction::ResetTimeLock {  })
        } else {
            Err(ProgramError::from(EscrowError::InvalidInstruction))
        }
    }

    /// Reads a little-endian amount from the first eight bytes of `input`.
    pub fn unpack_amount(input: &[u8]) -> (r: Result<u64, ProgramError>)
        ensures
            r == spec_unpack_amount(input@),
    {
        if input.len() < AMOUNT_LEN {
            return Err(ProgramError::from(EscrowError::InvalidInstruction));
        }
        let amount = u64_from_le_bytes(slice_subrange(input, 0, AMOUNT_LEN));
        Ok(amount)
    }

    /// Encodes this operation: the tag byte, then the amount where the
    /// operation carries one.
    pub fn pack(&self) -> (buf: Vec<u8>)
        ensures
            buf@ == self.spec_pack(),
    {
        let mut buf: Vec<u8> = Vec::with_capacity(1 + AMOUNT_LEN);
        match self {
            EscrowInstruction::InitEscrow { amount } => {
                buf.push(TAG_INIT_ESCROW);
                let mut bytes = u64_to_le_bytes(*amount);
                buf.append(&mut bytes);
            },
            EscrowInstruction::Exchange { amount } => {
                buf.push(TAG_EXCHANGE);
                let mut bytes = u64_to_le_bytes(*amount);
                buf.append(&mut bytes);
            },
            EscrowInstruction::Cancel {  } => {
                buf.push(TAG_CANCEL);
            },
            EscrowInstruction::ResetTimeLock {  } => {
                buf.push(TAG_RESET_TIME_LOCK);
            },
        }
        buf
    }
}

/// An encoded operation is one byte long, or nine where it carries an amount.
pub proof fn lemma_pack_len(op: EscrowInstruction)
    ensures
        op.spec_pack().len() == (match op {
            EscrowInstruction::InitEscrow { .. } | EscrowInstruction::Exchange { .. } => 1
                + AMOUNT_LEN as int,
            _ => 1,
        }),
        op.spec_pack()[0] == op.spec_tag(),
{
    lemma_auto_spec_u64_to_from_le_bytes();
}

/// Decoding what `pack` wrote gives the operation back, for all four
/// operations and every amount.
pub proof fn lemma_unpack_pack(op: EscrowInstruction)
    ensures
        spec_unpack(op.spec_pack()) == Ok::<EscrowInstruction, ProgramError>(op),
{
    lemma_auto_spec_u64_to_from_le_bytes();
    let bytes = op.spec_pack();
    match op {
        EscrowInstruction::InitEscrow { amount } | EscrowInstruction::Exchange { amount } => {
            let payload = bytes.subrange(1, bytes.len() as int);
            assert(payload =~= spec_u64_to_le_bytes(amount));
            assert(payload.subrange(0, AMOUNT_LEN as int) =~= payload);
        },
        _ => {},
    }
}

/// No two operations share a wire form.
pub proof fn lemma_wire_form_unique(a: EscrowInstruction, b: EscrowInstruction)
    requires
        a.spec_pack() == b.spec_pack(),
    ensures
        a == b,
{
    lemma_unpack_pack(a);
    lemma_unpack_pack(b);
}

/// Bytes appended to an encoded operation do not change what it decodes to.
pub proof fn lemma_unpack_ignores_trailing(op: EscrowInstruction, trailing: Seq<u8>)
    ensures
        spec_unpack(op.spec_pack() + trailing) == Ok::<EscrowInstruction, ProgramError>(op),
{
    lemma_auto_spec_u64_to_from_le_bytes();
    let bytes = op.spec_pack() + trailing;
    match op {
        EscrowInstruction::InitEscrow { amount } | EscrowInstruction::Exchange { amount } => {
            let payload = bytes.subrange(1, bytes.len() as int);
            assert(payload.subrange(0, AMOUNT_LEN as int) =~= spec_u64_to_le_bytes(amount));
        },
        _ => {},
    }
}

/// A buffer whose tag is four or more, and a buffer whose tag asks for an
/// amount but has fewer than eight bytes behind it, decode to
/// `InvalidInstruction`; so does the empty buffer.
pub proof fn lemma_unpack_rejects(input: Seq<u8>)
    requires
        input.len() == 0 || input[0] >= 4 || ((input[0] == TAG_INIT_ESCROW || input[0]
            == TAG_EXCHANGE) && input.len() - 1 < AMOUNT_LEN),
    ensures
        spec_unpack(input) == Err::<EscrowInstruction, ProgramError>(
            spec_program_error(EscrowError::InvalidInstruction),
        ),
{
}

/// Decoding fails only in the ways that `lemma_unpack_rejects` names, and
/// only with `InvalidInstruction`.
pub proof fn lemma_unpack_accepts(input: Seq<u8>)
    requires
        input.len() > 0,
        input[0] < 4,
        (input[0] == TAG_INIT_ESCROW || input[0] == TAG_EXCHANGE) ==> input.len() - 1
            >= AMOUNT_LEN,
    ensures
        spec_unpack(input) is Ok,
        spec_unpack(input)->Ok_0.spec_tag() == input[0],
{
}

/// A writable account that signs the instruction.
pub open spec fn spec_signer(key: Pubkey) -> AccountMeta {
    AccountMeta { pubkey: key, is_signer: true, is_writable: true }
}

/// A writable account that does not sign.
pub open spec fn spec_writable(key: Pubkey) -> AccountMeta {
    AccountMeta { pubkey: key, is_signer: false, is_writable: true }
}

/// A read-only account that does not sign.
pub open spec fn spec_readonly(key: Pubkey) -> AccountMeta {
    AccountMeta { pubkey: key, is_signer: false, is_writable: false }
}

/// The account list of `InitEscrow`, in the order the program expects.
pub open spec fn spec_init_escrow_accounts(
    initiator: Pubkey,
    temp_token_account: Pubkey,
    initializer_token_account: Pubkey,
    escrow_account: Pubkey,
    rent_sysvar: Pubkey,
    token_program: Pubkey,
) -> Seq<AccountMeta> {
    seq![
        spec_signer(initiator),
        spec_writable(temp_token_account),
        spec_readonly(initializer_token_account),
        spec_writable(escrow_account),
        spec_readonly(rent_sysvar),
        spec_readonly(token_program),
    ]
}

/// The account list of `Exchange`, in the order the program expects.
pub open spec fn spec_exchange_accounts(
    taker: Pubkey,
    taker_token_account: Pubkey,
    taker_token_account2: Pubkey,
    temp_token_account: Pubkey,
    initiator: Pubkey,
    initializer_token_account: Pubkey,
    escrow_account: Pubkey,
    token_program: Pubkey,
) -> Seq<AccountMeta> {
    seq![
        spec_signer(taker),
        spec_writable(taker_token_account),
        spec_writable(taker_token_account2),
        spec_writable(temp_token_account),
        spec_writable(initiator),
        spec_writable(initializer_token_account),
        spec_writable(escrow_account),
        spec_readonly(token_program),
    ]
}

/// The account list of `Cancel`, in the order the program expects.
pub open spec fn spec_cancel_accounts(
    initiator: Pubkey,
    temp_token_account: Pubkey,
    initializer_token_account: Pubkey,
    escrow_account: Pubkey,
    token_program: Pubkey,
) -> Seq<AccountMeta> {
    seq![
        spec_signer(initiator),
        spec_writable(temp_token_account),
        spec_readonly(initializer_token_account),
        spec_writable(escrow_account),
        spec_readonly(token_program),
    ]
}

/// The account list of `ResetTimeLock`, in the order the program expects.
pub open spec fn spec_reset_time_lock_accounts(
    initiator: Pubkey,
    escrow_account: Pubkey,
) -> Seq<AccountMeta> {
    seq![spec_signer(initiator), spec_writable(escrow_account)]
}

/// Builds the `InitEscrow` instruction for `program_id`: the six accounts in
/// the order the program expects, and the encoded operation as data.
pub fn init_escrow(
    program_id: &Pubkey,
    initiator: &Pubkey,
    temp_token_account: &Pubkey,
    initializer_token_account: &Pubkey,
    escrow_account: &Pubkey,
    rent_sysvar: &Pubkey,
    token_program: &Pubkey,
    amount: u64,
) -> (r: Result<Instruction, ProgramError>)
    ensures
        r is Ok,
        r->Ok_0.program_id == *program_id,
        r->Ok_0.accounts@ == spec_init_escrow_accounts(
            *initiator,
            *temp_token_account,
            *initializer_token_account,
            *escrow_account,
            *rent_sysvar,
            *token_program,
        ),
        r->Ok_0.data@ == (EscrowInstruction::InitEscrow { amount }).spec_pack(),
{
    let data = EscrowInstruction::InitEscrow { amount }.pack();
    let mut accounts: Vec<AccountMeta> = Vec::with_capacity(6);
    accounts.push(AccountMeta::new(*initiator, true));
    accounts.push(AccountMeta::new(*temp_token_account, false));
    accounts.push(AccountMeta::new_readonly(*initializer_token_account, false));
    accounts.push(AccountMeta::new(*escrow_account, false));
    accounts.push(AccountMeta::new_readonly(*rent_sysvar, false));
    accounts.push(AccountMeta::new_readonly(*token_program, false));
    Ok(Instruction { program_id: *program_id, accounts, data })
}

/// Builds the `Exchange` instruction for `program_id`: the eight accounts in
/// the order the program expects, and the encoded operation as data.
pub fn exchange(
    program_id: &Pubkey,
    taker: &Pubkey,
    taker_token_account: &Pubkey,
    taker_token_account2: &Pubkey,
    initiator: &Pubkey,
    temp_token_account: &Pubkey,
    initializer_token_account: &Pubkey,
    escrow_account: &Pubkey,
    token_program: &Pubkey,
    amount: u64,
) -> (r: Result<Instruction, ProgramError>)
    ensures
        r is Ok,
        r->Ok_0.program_id == *program_id,
        r->Ok_0.accounts@ == spec_exchange_accounts(
            *taker,
            *taker_token_account,
            *taker_token_account2,
            *temp_token_account,
            *initiator,
            *initializer_token_account,
            *escrow_account,
            *token_program,
        ),
        r->Ok_0.data@ == (EscrowInstruction::Exchange { amount }).spec_pack(),
{
    let data = EscrowInstruction::Exchange { amount }.pack();
    let mut accounts: Vec<AccountMeta> = Vec::with_capacity(8);
    accounts.push(AccountMeta::new(*taker, true));
    accounts.push(AccountMeta::new(*taker_token_account, false));
    accounts.push(AccountMeta::new(*taker_token_account2, false));
    accounts.push(AccountMeta::new(*temp_token_account, false));
    accounts.push(AccountMeta::new(*initiator, false));
    accounts.push(AccountMeta::new(*initializer_token_account, false));
    accounts.push(AccountMeta::new(*escrow_account, false));
    accounts.push(AccountMeta::new_readonly(*token_program, false));
    Ok(Instruction { program_id: *program_id, accounts, data })
}

/// Builds the `Cancel` instruction for `program_id`: the five accounts in the
/// order the program expects, and the encoded operation as data.
pub fn cancel(
    program_id: &Pubkey,
    initiator: &Pubkey,
    temp_token_account: &Pubkey,
    initializer_token_account: &Pubkey,
    escrow_account: &Pubkey,
    token_program: &Pubkey,
) -> (r: Result<Instruction, ProgramError>)
    ensures
        r is Ok,
        r->Ok_0.program_id == *program_id,
        r->Ok_0.accounts@ == spec_cancel_accounts(
            *initiator,
            *temp_token_account,
            *initializer_token_account,
            *escrow_account,
            *token_program,
        ),
        r->Ok_0.data@ == (EscrowInstruction::Cancel {  }).spec_pack(),
{
    let data = EscrowInstruction::Cancel {  }.pack();
    let mut accounts: Vec<AccountMeta> = Vec::with_capacity(5);
    accounts.push(AccountMeta::new(*initiator, true));
    accounts.push(AccountMeta::new(*temp_token_account, false));
    accounts.push(AccountMeta::new_readonly(*initializer_token_account, false));
    accounts.push(AccountMeta::new(*escrow_account, false));
    accounts.push(AccountMeta::new_readonly(*token_program, false));
    Ok(Instruction { program_id: *program_id, accounts, data })
}

/// Builds the `ResetTimeLock` instruction for `program_id`: the two accounts
/// in the order the program expects, and the encoded operation as data.
pub fn reset_time_lock(program_id: &Pubkey, initiator: &Pubkey, escrow_account: &Pubkey) -> (r:
    Result<Instruction, ProgramError>)
    ensures
        r is Ok,
        r->Ok_0.program_id == *program_id,
        r->Ok_0.accounts@ == spec_reset_time_lock_accounts(*initiator, *escrow_account),
        r->Ok_0.data@ == (EscrowInstruction::ResetTimeLock {  }).spec_pack(),
{
    let data = EscrowInstruction::ResetTimeLock {  }.pack();
    let mut accounts: Vec<AccountMeta> = Vec::with_capacity(2);
    accounts.push(AccountMeta::new(*initiator, true));
    accounts.push(AccountMeta::new(*escrow_account, false));
    Ok(Instruction { program_id: *program_id, accounts, data })
}

/// Whether `accounts` has one account for each role, with flags that the
/// role of its position accepts.
pub open spec fn spec_fits_roles(accounts: Seq<AccountMeta>, roles: Seq<Role>) -> bool {
    &&& accounts.len() == roles.len()
    &&& forall|i: int|
        0 <= i < roles.len() ==> (#[trigger] roles[i]).spec_accepts(
            accounts[i].is_signer,
            accounts[i].is_writable,
        )
}

/// What the builders list is what the handlers check for: the account list
/// of each built instruction has the length and the flags that the roles of
/// its operation ask for, whatever the addresses.
pub proof fn lemma_built_accounts_fit_roles(
    a: Pubkey,
    b: Pubkey,
    c: Pubkey,
    d: Pubkey,
    e: Pubkey,
    f: Pubkey,
    g: Pubkey,
    h: Pubkey,
)
    ensures
        spec_fits_roles(spec_init_escrow_accounts(a, b, c, d, e, f), spec_init_escrow_roles()),
        spec_fits_roles(spec_exchange_accounts(a, b, c, d, e, f, g, h), spec_exchange_roles()),
        spec_fits_roles(spec_cancel_accounts(a, b, c, d, e), spec_cancel_roles()),
        spec_fits_roles(spec_reset_time_lock_accounts(a, b), spec_reset_time_lock_roles()),
{
}

} // verus!
