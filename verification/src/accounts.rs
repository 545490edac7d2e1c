//! Account roles: which role each position of an operation's account list
//! plays, and the check of a list against them.
//!
//! Accounts are matched by position, never by name. Every positional
//! assumption of the protocol is written down here, once.

use vstd::prelude::*;
use solana_program::program_error::ProgramError;
use crate::address::Address;
use crate::instruction::EscrowInstruction;

verus! {

/// An account as the host ledger hands it to an operation.
#[derive(Debug, Copy, Clone, PartialEq, Eq)]
pub struct AccountHandle {
    /// The account's address.
    pub key: Address,
    /// Whether the ledger verified this account's signature.
    pub is_signer: bool,
    /// Whether the operation may write to this account.
    pub is_writable: bool,
}

/// What an operation asks of the account at one position.
#[derive(Debug, Copy, Clone, PartialEq, Eq, Structural)]
pub enum Role {
    /// The account must have signed.
    Signer,
    /// The account must be writable.
    Writable,
    /// Nothing is asked of the account's flags.
    ReadOnly,
}

impl Role {
    /// Whether an account with these flags can play this role.
    pub open spec fn spec_accepts(self, is_signer: bool, is_writable: bool) -> bool {
        match self {
            Role::Signer => is_signer,
            Role::Writable => is_writable,
            Role::ReadOnly => true,
        }
    }

    /// The outcome of asking `account` to play this role: a missing
    /// signature is `MissingRequiredSignature`, a read-only account in a
    /// writable position is `Immutable`.
    pub open spec fn spec_accept(self, account: AccountHandle) -> Result<(), ProgramError> {
        match self {
            Role::Signer => if account.is_signer {
                Ok(())
            } else {
                Err(ProgramError::MissingRequiredSignature)
            },
            Role::Writable => if account.is_writable {
                Ok(())
            } else {
                Err(ProgramError::Immutable)
            },
            Role::ReadOnly => Ok(()),
        }
    }

    /// Checks one account against this role.
    pub fn accept(self, account: &AccountHandle) -> (r: Result<(), ProgramError>)
        ensures
            r == self.spec_accept(*account),
            r is Ok <==> self.spec_accepts(account.is_signer, account.is_writable),
    {
        match self {
            Role::Signer => if account.is_signer {
                Ok(())
            } else {
                Err(ProgramError::MissingRequiredSignature)
            },
            Role::Writable => if account.is_writable {
                Ok(())
            } else {
                Err(ProgramError::Immutable)
            },
            Role::ReadOnly => Ok(()),
        }
    }
}

/// Roles of `InitEscrow`: the initializer, the temporary token account, the
/// initializer's receiving account, the escrow record, the rent oracle, the
/// token program.
pub open spec fn spec_init_escrow_roles() -> Seq<Role> {
    seq![
        Role::Signer,
        Role::Writable,
        Role::ReadOnly,
        Role::Writable,
        Role::ReadOnly,
        Role::ReadOnly,
    ]
}

/// Roles of `Exchange`: the taker, the taker's source account, the taker's
/// destination account, the temporary token account, the initializer's main
/// account, the initializer's receiving account, the escrow record, the token
/// program.
pub open spec fn spec_exchange_roles() -> Seq<Role> {
    seq![
        Role::Signer,
        Role::Writable,
        Role::Writable,
        Role::Writable,
        Role::Writable,
        Role::Writable,
        Role::Writable,
        Role::ReadOnly,
    ]
}

/// Roles of `Cancel`: the initializer, the temporary token account, the
/// initializer's receiving account, the escrow record, the token program.
pub open spec fn spec_cancel_roles() -> Seq<Role> {
    seq![Role::Signer, Role::Writable, Role::ReadOnly, Role::Writable, Role::ReadOnly]
}

/// Roles of `ResetTimeLock`: the initializer, the escrow record.
pub open spec fn spec_reset_time_lock_roles() -> Seq<Role> {
    seq![Role::Signer, Role::Writable]
}

/// The roles that `op` expects, by position.
pub open spec fn spec_roles(op: EscrowInstruction) -> Seq<Role> {
    match op {
        EscrowInstruction::InitEscrow { .. } => spec_init_escrow_roles(),
        EscrowInstruction::Exchange { .. } => spec_exchange_roles(),
        EscrowInstruction::Cancel {  } => spec_cancel_roles(),
        EscrowInstruction::ResetTimeLock {  } => spec_reset_time_lock_roles(),
    }
}

/// The outcome of checking `accounts` against `roles` from position `from`
/// on: the refusal of the first account that cannot play its role.
pub open spec fn spec_check_from(roles: Seq<Role>, accounts: Seq<AccountHandle>, from: int) -> Result<
    (),
    ProgramError,
>
    decreases roles.len() - from,
{
    if from < 0 || from >= roles.len() {
        Ok(())
    } else {
        match roles[from].spec_accept(accounts[from]) {
            Err(e) => Err(e),
            Ok(_) => spec_check_from(roles, accounts, from + 1),
        }
    }
}

/// The outcome of checking `accounts` against `roles`: too short a list is
/// `NotEnoughAccountKeys`; else the first account that cannot play its role
/// decides. Accounts behind the last role are not looked at.
pub open spec fn spec_check_roles(roles: Seq<Role>, accounts: Seq<AccountHandle>) -> Result<
    (),
    ProgramError,
> {
    if accounts.len() < roles.len() {
        Err(ProgramError::NotEnoughAccountKeys)
    } else {
        spec_check_from(roles, accounts, 0)
    }
}

/// The roles of `InitEscrow`.
pub fn init_escrow_roles() -> (roles: Vec<Role>)
    ensures
        roles@ == spec_init_escrow_roles(),
{
    let roles = vec![
        Role::Signer,
        Role::Writable,
        Role::ReadOnly,
        Role::Writable,
        Role::ReadOnly,
        Role::ReadOnly,
    ];
    assert(roles@ =~= spec_init_escrow_roles());
    roles
}

/// The roles of `Exchange`.
pub fn exchange_roles() -> (roles: Vec<Role>)
    ensures
        roles@ == spec_exchange_roles(),
{
    let roles = vec![
        Role::Signer,
        Role::Writable,
        Role::Writable,
        Role::Writable,
        Role::Writable,
        Role::Writable,
        Role::Writable,
        Role::ReadOnly,
    ];
    assert(roles@ =~= spec_exchange_roles());
    roles
}

/// The roles of `Cancel`.
pub fn cancel_roles() -> (roles: Vec<Role>)
    ensures
        roles@ == spec_cancel_roles(),
{
    let roles = vec![Role::Signer, Role::Writable, Role::ReadOnly, Role::Writable, Role::ReadOnly];
    assert(roles@ =~= spec_cancel_roles());
    roles
}

/// The roles of `ResetTimeLock`.
pub fn reset_time_lock_roles() -> (roles: Vec<Role>)
    ensures
        roles@ == spec_reset_time_lock_roles(),
{
    let roles = vec![Role::Signer, Role::Writable];
    assert(roles@ =~= spec_reset_time_lock_roles());
    roles
}

/// The roles that `op` expects, by position.
pub fn expected_roles(op: &EscrowInstruction) -> (roles: Vec<Role>)
    ensures
        roles@ == spec_roles(*op),
{
    match op {
        EscrowInstruction::InitEscrow { .. } => init_escrow_roles(),
        EscrowInstruction::Exchange { .. } => exchange_roles(),
        EscrowInstruction::Cancel {  } => cancel_roles(),
        EscrowInstruction::ResetTimeLock {  } => reset_time_lock_roles(),
    }
}

/// Checks an account list against a list of roles, position by position.
pub fn check_roles(roles: &[Role], accounts: &[AccountHandle]) -> (r: Result<(), ProgramError>)
    ensures
        r == spec_check_roles(roles@, accounts@),
{
    if accounts.len() < roles.len() {
        return Err(ProgramError::NotEnoughAccountKeys);
    }
    let mut i: usize = 0;
    while i < roles.len()
        invariant
            0 <= i <= roles@.len() <= accounts@.len(),
            spec_check_roles(roles@, accounts@) == spec_check_from(roles@, accounts@, i as int),
        decreases roles@.len() - i,
    {
        match roles[i].accept(&accounts[i]) {
            Ok(()) => {},
            Err(e) => {
                return Err(e);
            },
        }
        i += 1;
    }
    Ok(())
}

/// Checks an account list against the roles that `op` expects.
pub fn validate_accounts(op: &EscrowInstruction, accounts: &[AccountHandle]) -> (r: Result<
    (),
    ProgramError,
>)
    ensures
        r == spec_check_roles(spec_roles(*op), accounts@),
{
    let roles = expected_roles(op);
    check_roles(roles.as_slice(), accounts)
}

/// A check from `from` on succeeds exactly when every account from there on
/// can play its role.
pub proof fn lemma_check_from(roles: Seq<Role>, accounts: Seq<AccountHandle>, from: int)
    requires
        0 <= from <= roles.len() <= accounts.len(),
    ensures
        spec_check_from(roles, accounts, from) is Ok <==> forall|i: int|
            from <= i < roles.len() ==> (#[trigger] roles[i]).spec_accept(accounts[i]) is Ok,
    decreases roles.len() - from,
{
    if from < roles.len() {
        lemma_check_from(roles, accounts, from + 1);
        if roles[from].spec_accept(accounts[from]) is Ok && spec_check_from(
            roles,
            accounts,
            from + 1,
        ) is Ok {
            assert forall|i: int| from <= i < roles.len() implies (#[trigger] roles[i]).spec_accept(
                accounts[i],
            ) is Ok by {
                if i > from {
                    assert(from + 1 <= i);
                }
            }
        }
    }
}

/// When a check from `from` on fails, its error is the refusal of the first
/// account from there on that cannot play its role.
pub proof fn lemma_check_from_first(
    roles: Seq<Role>,
    accounts: Seq<AccountHandle>,
    from: int,
    first: int,
)
    requires
        0 <= from <= first < roles.len() <= accounts.len(),
        roles[first].spec_accept(accounts[first]) is Err,
        forall|i: int| from <= i < first ==> (#[trigger] roles[i]).spec_accept(accounts[i]) is Ok,
    ensures
        spec_check_from(roles, accounts, from) == roles[first].spec_accept(accounts[first]),
    decreases first - from,
{
    if from < first {
        assert(roles[from].spec_accept(accounts[from]) is Ok);
        lemma_check_from_first(roles, accounts, from + 1, first);
    }
}

/// Role validation, stated directly: a list is accepted exactly when it is
/// long enough and every account can play the role of its position; a list
/// that is too short is refused with `NotEnoughAccountKeys`.
pub proof fn lemma_check_roles(roles: Seq<Role>, accounts: Seq<AccountHandle>)
    ensures
        spec_check_roles(roles, accounts) is Ok <==> (accounts.len() >= roles.len() && forall|
            i: int,
        |
            0 <= i < roles.len() ==> (#[trigger] roles[i]).spec_accepts(
                accounts[i].is_signer,
                accounts[i].is_writable,
            )),
        accounts.len() < roles.len() ==> spec_check_roles(roles, accounts) == Err::<
            (),
            ProgramError,
        >(ProgramError::NotEnoughAccountKeys),
{
    if accounts.len() >= roles.len() {
        lemma_check_from(roles, accounts, 0);
        assert forall|i: int| 0 <= i < roles.len() implies ((#[trigger] roles[i]).spec_accept(
            accounts[i],
        ) is Ok <==> roles[i].spec_accepts(accounts[i].is_signer, accounts[i].is_writable)) by {}
    }
}

/// The accounts of `InitEscrow`, by name.
#[derive(Debug, Copy, Clone, PartialEq, Eq)]
pub struct InitEscrowAccounts {
    pub initializer: Address,
    pub temp_token_account: Address,
    pub initializer_receiving_account: Address,
    pub escrow_record: Address,
    pub rent_oracle: Address,
    pub token_program: Address,
}

/// The accounts of `Exchange`, by name.
#[derive(Debug, Copy, Clone, PartialEq, Eq)]
pub struct ExchangeAccounts {
    pub taker: Address,
    pub taker_source: Address,
    pub taker_destination: Address,
    pub temp_token_account: Address,
    pub initializer: Address,
    pub initializer_receiving_account: Address,
    pub escrow_record: Address,
    pub token_program: Address,
}

/// The accounts of `Cancel`, by name.
#[derive(Debug, Copy, Clone, PartialEq, Eq)]
pub struct CancelAccounts {
    pub initializer: Address,
    pub temp_token_account: Address,
    pub initializer_receiving_account: Address,
    pub escrow_record: Address,
    pub token_program: Address,
}

/// The accounts of `ResetTimeLock`, by name.
#[derive(Debug, Copy, Clone, PartialEq, Eq)]
pub struct ResetTimeLockAccounts {
    pub initializer: Address,
    pub escrow_record: Address,
}

/// Binds the account list of `InitEscrow` to its roles: the names of a list
/// that passes the role check, the check's error for any other.
pub open spec fn spec_bind_init_escrow(accounts: Seq<AccountHandle>) -> Result<
    InitEscrowAccounts,
    ProgramError,
> {
    match spec_check_roles(spec_init_escrow_roles(), accounts) {
        Err(e) => Err(e),
        Ok(_) => Ok(
            InitEscrowAccounts {
                initializer: accounts[0].key,
                temp_token_account: accounts[1].key,
                initializer_receiving_account: accounts[2].key,
                escrow_record: accounts[3].key,
                rent_oracle: accounts[4].key,
                token_program: accounts[5].key,
            },
        ),
    }
}

/// Binds the account list of `Exchange` to its roles.
pub open spec fn spec_bind_exchange(accounts: Seq<AccountHandle>) -> Result<
    ExchangeAccounts,
    ProgramError,
> {
    match spec_check_roles(spec_exchange_roles(), accounts) {
        Err(e) => Err(e),
        Ok(_) => Ok(
            ExchangeAccounts {
                taker: accounts[0].key,
                taker_source: accounts[1].key,
                taker_destination: accounts[2].key,
                temp_token_account: accounts[3].key,
                initializer: accounts[4].key,
                initializer_receiving_account: accounts[5].key,
                escrow_record: accounts[6].key,
                token_program: accounts[7].key,
            },
        ),
    }
}

/// Binds the account list of `Cancel` to its roles.
pub open spec fn spec_bind_cancel(accounts: Seq<AccountHandle>) -> Result<
    CancelAccounts,
    ProgramError,
> {
    match spec_check_roles(spec_cancel_roles(), accounts) {
        Err(e) => Err(e),
        Ok(_) => Ok(
            CancelAccounts {
                initializer: accounts[0].key,
                temp_token_account: accounts[1].key,
                initializer_receiving_account: accounts[2].key,
                escrow_record: accounts[3].key,
                token_program: accounts[4].key,
            },
        ),
    }
}

/// Binds the account list of `ResetTimeLock` to its roles.
pub open spec fn spec_bind_reset_time_lock(accounts: Seq<AccountHandle>) -> Result<
    ResetTimeLockAccounts,
    ProgramError,
> {
    match spec_check_roles(spec_reset_time_lock_roles(), accounts) {
        Err(e) => Err(e),
        Ok(_) => Ok(
            ResetTimeLockAccounts { initializer: accounts[0].key, escrow_record: accounts[1].key },
        ),
    }
}

/// Checks the account list of `InitEscrow` and names its accounts.
pub fn bind_init_escrow(accounts: &[AccountHandle]) -> (r: Result<InitEscrowAccounts, ProgramError>)
    ensures
        r == spec_bind_init_escrow(accounts@),
{
    let roles = init_escrow_roles();
    match check_roles(roles.as_slice(), accounts) {
        Err(e) => Err(e),
        Ok(()) => Ok(
            InitEscrowAccounts {
                initializer: accounts[0].key,
                temp_token_account: accounts[1].key,
                initializer_receiving_account: accounts[2].key,
                escrow_record: accounts[3].key,
                rent_oracle: accounts[4].key,
                token_program: accounts[5].key,
            },
        ),
    }
}

/// Checks the account list of `Exchange` and names its accounts.
pub fn bind_exchange(accounts: &[AccountHandle]) -> (r: Result<ExchangeAccounts, ProgramError>)
    ensures
        r == spec_bind_exchange(accounts@),
{
    let roles = exchange_roles();
    match check_roles(roles.as_slice(), accounts) {
        Err(e) => Err(e),
        Ok(()) => Ok(
            ExchangeAccounts {
                taker: accounts[0].key,
                taker_source: accounts[1].key,
                taker_destination: accounts[2].key,
                temp_token_account: accounts[3].key,
                initializer: accounts[4].key,
                initializer_receiving_account: accounts[5].key,
                escrow_record: accounts[6].key,
                token_program: accounts[7].key,
            },
        ),
    }
}

/// Checks the account list of `Cancel` and names its accounts.
pub fn bind_cancel(accounts: &[AccountHandle]) -> (r: Result<CancelAccounts, ProgramError>)
    ensures
        r == spec_bind_cancel(accounts@),
{
    let roles = cancel_roles();
    match check_roles(roles.as_slice(), accounts) {
        Err(e) => Err(e),
        Ok(()) => Ok(
            CancelAccounts {
                initializer: accounts[0].key,
                temp_token_account: accounts[1].key,
                initializer_receiving_account: accounts[2].key,
                escrow_record: accounts[3].key,
                token_program: accounts[4].key,
            },
        ),
    }
}

/// Checks the account list of `ResetTimeLock` and names its accounts.
pub fn bind_reset_time_lock(accounts: &[AccountHandle]) -> (r: Result<
    ResetTimeLockAccounts,
    ProgramError,
>)
    ensures
        r == spec_bind_reset_time_lock(accounts@),
{
    let roles = reset_time_lock_roles();
    match check_roles(roles.as_slice(), accounts) {
        Err(e) => Err(e),
        Ok(()) => Ok(
            ResetTimeLockAccounts { initializer: accounts[0].key, escrow_record: accounts[1].key },
        ),
    }
}

} // verus!
