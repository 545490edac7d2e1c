//! The host ledger's own types, as far as the library hands them through:
//! account addresses, the account list of an instruction, and the ledger's
//! error type.
//!
//! Nothing here is proved. The declarations make the ledger SDK's types known
//! to the verifier, and the two specifications state what the SDK's
//! constructors of `AccountMeta` return.

use vstd::prelude::*;

verus! {

/// `solana_program::pubkey::Pubkey`, the 32-byte address of an account. Its
/// contents stay hidden: the library only carries such values.
#[verifier::external_type_specification]
#[verifier::external_body]
pub struct ExPubkey(solana_program::pubkey::Pubkey);

/// `solana_program::instruction::AccountMeta`: an address with its signer and
/// writable flags. The verifier reads its three public fields.
#[verifier::external_type_specification]
pub struct ExAccountMeta(solana_program::instruction::AccountMeta);

/// `solana_program::instruction::Instruction`: the program to call, the
/// accounts it is given, in order, and the instruction data. The verifier
/// reads its three public fields.
#[verifier::external_type_specification]
pub struct ExInstruction(solana_program::instruction::Instruction);

/// `solana_program::program_error::ProgramError`, the ledger's error type.
/// The verifier reads its variants.
#[verifier::external_type_specification]
pub struct ExProgramError(solana_program::program_error::ProgramError);

/// `AccountMeta::new` keeps the address and the signer flag it is given and
/// marks the account writable.
pub assume_specification[ solana_program::instruction::AccountMeta::new ](
    pubkey: solana_program::pubkey::Pubkey,
    is_signer: bool,
) -> (meta: solana_program::instruction::AccountMeta)
    ensures
        meta.pubkey == pubkey,
        meta.is_signer == is_signer,
        meta.is_writable,
;

/// `AccountMeta::new_readonly` keeps the address and the signer flag it is
/// given and marks the account read-only.
pub assume_specification[ solana_program::instruction::AccountMeta::new_readonly ](
    pubkey: solana_program::pubkey::Pubkey,
    is_signer: bool,
) -> (meta: solana_program::instruction::AccountMeta)
    ensures
        meta.pubkey == pubkey,
        meta.is_signer == is_signer,
        !meta.is_writable,
;

} // verus!
