//! Calls of other programs: the requests the program prepares for the
//! system program and the token program.

use crate::account::AccountRef;
use crate::pubkey::Pubkey;
use vstd::bytes::spec_u64_to_le_bytes;
use vstd::prelude::*;

verus! {

/// The failure type of the outside program interfaces.
#[verifier::external_type_specification]
#[verifier::external_body]
pub struct ExProgramError(solana_program::program_error::ProgramError);

/// Bytes of the key of the system program, which creates storage slots.
pub const SYSTEM_PROGRAM_ID: [u8; 32] = [
    0, 0, 0, 0, 0, 0, 0, 0,
    0, 0, 0, 0, 0, 0, 0, 0,
    0, 0, 0, 0, 0, 0, 0, 0,
    0, 0, 0, 0, 0, 0, 0, 0,
];

/// Bytes of the key of the token program, which moves value.
pub const TOKEN_PROGRAM_ID: [u8; 32] = [
    6, 221, 246, 225, 215, 101, 161, 147,
    217, 203, 225, 70, 206, 235, 121, 172,
    28, 180, 133, 237, 95, 91, 55, 145,
    58, 140, 245, 133, 126, 255, 0, 169,
];

/// Tag of the system program's instruction that creates an account.
pub const SYSTEM_CREATE_ACCOUNT_TAG: u32 = 0;

/// Tag of the token program's instruction that transfers tokens.
pub const TOKEN_TRANSFER_TAG: u8 = 3;

/// One account of a nested call, with the rights the call is given on it.
#[derive(Clone, Copy, Debug, PartialEq, Eq)]
pub struct AccountMeta {
    /// Identity of the account.
    pub pubkey: Pubkey,
    /// Must the account have authorized the call?
    pub is_signer: bool,
    /// May the call change the account?
    pub is_writable: bool,
}

/// A call of another program: which program, on which accounts, with which
/// payload.
#[derive(Clone, Debug, PartialEq, Eq)]
pub struct Instruction {
    /// The program that executes the call.
    pub program_id: Pubkey,
    /// The accounts the program may touch.
    pub accounts: Vec<AccountMeta>,
    /// The payload, which the program interprets.
    pub data: Vec<u8>,
}

/// What an [`Instruction`] holds.
pub struct InstructionView {
    /// The program that executes the call.
    pub program_id: Pubkey,
    /// The accounts the program may touch.
    pub accounts: Seq<AccountMeta>,
    /// The payload, which the program interprets.
    pub data: Seq<u8>,
}

impl View for Instruction {
    type V = InstructionView;

    open spec fn view(&self) -> InstructionView {
        InstructionView { program_id: self.program_id, accounts: self.accounts@, data: self.data@ }
    }
}

/// Why no transfer could be requested.
#[derive(Clone, Copy, Debug, PartialEq, Eq, Structural)]
pub enum TransferError {
    /// The account given as the token program is another program.
    IncorrectProgramId,
}

/// The key of the system program.
pub open spec fn spec_system_program_id() -> Pubkey {
    Pubkey { bytes: SYSTEM_PROGRAM_ID }
}

/// The key of the token program.
pub open spec fn spec_token_program_id() -> Pubkey {
    Pubkey { bytes: TOKEN_PROGRAM_ID }
}

/// The call that asks the system program for a new slot.
///
/// Both `from`, which pays `lamports`, and `to`, the new slot of `space`
/// bytes owned by `owner`, must sign and are written.
pub open spec fn spec_create_account(
    from: Pubkey,
    to: Pubkey,
    lamports: u64,
    space: u64,
    owner: Pubkey,
) -> InstructionView {
    InstructionView {
        program_id: spec_system_program_id(),
        accounts: seq![
            AccountMeta { pubkey: from, is_signer: true, is_writable: true },
            AccountMeta { pubkey: to, is_signer: true, is_writable: true },
        ],
        data: seq![0u8, 0u8, 0u8, 0u8] + spec_u64_to_le_bytes(lamports) + spec_u64_to_le_bytes(
            space,
        ) + owner@,
    }
}

/// The call that asks the token program to move `amount` tokens.
///
/// `source` and `destination` are written; `authority` signs alone.
pub open spec fn spec_transfer(
    token_program: Pubkey,
    source: Pubkey,
    destination: Pubkey,
    authority: Pubkey,
    amount: u64,
) -> InstructionView {
    InstructionView {
        program_id: token_program,
        accounts: seq![
            AccountMeta { pubkey: source, is_signer: false, is_writable: true },
            AccountMeta { pubkey: destination, is_signer: false, is_writable: true },
            AccountMeta { pubkey: authority, is_signer: true, is_writable: false },
        ],
        data: seq![TOKEN_TRANSFER_TAG] + spec_u64_to_le_bytes(amount),
    }
}

/// Builds the call that creates an account.
///
/// Trusted: calls `solana_program::system_instruction::create_account`. It
/// addresses the system program, lists `from` and `to` as writable signers,
/// and encodes its payload with bincode: the variant's index in four
/// little-endian bytes, then `lamports` and `space` in eight each, then the
/// 32 bytes of `owner`.
#[verifier::external_body]
pub(crate) fn system_create_account(
    from: &Pubkey,
    to: &Pubkey,
    lamports: u64,
    space: u64,
    owner: &Pubkey,
) -> (call: Instruction)
    ensures
        call@ == spec_create_account(*from, *to, lamports, space, *owner),
{
    let from = solana_program::pubkey::Pubkey::new_from_array(from.bytes);
    let to = solana_program::pubkey::Pubkey::new_from_array(to.bytes);
    let owner = solana_program::pubkey::Pubkey::new_from_array(owner.bytes);
    let made = solana_program::system_instruction::create_account(&from, &to, lamports, space, &owner);
    Instruction {
        program_id: Pubkey { bytes: made.program_id.to_bytes() },
        accounts: made.accounts.iter().map(|m| AccountMeta {
            pubkey: Pubkey { bytes: m.pubkey.to_bytes() },
            is_signer: m.is_signer,
            is_writable: m.is_writable,
        }).collect(),
        data: made.data,
    }
}

/// Builds the call that transfers tokens on the authority's signature alone.
///
/// Trusted: calls `spl_token::instruction::transfer` with no further
/// signers. It fails exactly when `token_program` is not the token program.
/// Otherwise it addresses that program, lists `source` and `destination` as
/// writable and `authority` as a read-only signer, and its payload is the
/// transfer tag followed by `amount` in eight little-endian bytes.
#[verifier::external_body]
pub(crate) fn spl_token_transfer(
    token_program: &Pubkey,
    source: &Pubkey,
    destination: &Pubkey,
    authority: &Pubkey,
    amount: u64,
) -> (result: Result<Instruction, solana_program::program_error::ProgramError>)
    ensures
        result is Ok <==> *token_program == spec_token_program_id(),
        result matches Ok(call) ==> call@ == spec_transfer(
            *token_program,
            *source,
            *destination,
            *authority,
            amount,
        ),
{
    let program = solana_program::pubkey::Pubkey::new_from_array(token_program.bytes);
    let source = solana_program::pubkey::Pubkey::new_from_array(source.bytes);
    let destination = solana_program::pubkey::Pubkey::new_from_array(destination.bytes);
    let authority = solana_program::pubkey::Pubkey::new_from_array(authority.bytes);
    let made = spl_token::instruction::transfer(&program, &source, &destination, &authority, &[], amount)?;
    Ok(Instruction {
        program_id: Pubkey { bytes: made.program_id.to_bytes() },
        accounts: made.accounts.iter().map(|m| AccountMeta {
            pubkey: Pubkey { bytes: m.pubkey.to_bytes() },
            is_signer: m.is_signer,
            is_writable: m.is_writable,
        }).collect(),
        data: made.data,
    })
}

/// The key of the system program.
pub fn system_program_id() -> (key: Pubkey)
    ensures
        key == spec_system_program_id(),
{
    Pubkey::new_from_array(SYSTEM_PROGRAM_ID)
}

/// The key of the token program.
pub fn token_program_id() -> (key: Pubkey)
    ensures
        key == spec_token_program_id(),
{
    Pubkey::new_from_array(TOKEN_PROGRAM_ID)
}

/// Prepares the transfer of `amount` tokens from `source` to `destination`
/// on the signature of `authority`.
///
/// Gives the call to hand to `token_program`; performing it is left to the
/// caller. Fails when `token_program` is not the token program.
pub fn token_transfer(
    token_program: &AccountRef,
    source: &AccountRef,
    destination: &AccountRef,
    authority: &AccountRef,
    amount: u64,
) -> (result: Result<Instruction, TransferError>)
    ensures
        result is Ok <==> token_program.key == spec_token_program_id(),
        result matches Ok(call) ==> call@ == spec_transfer(
            token_program.key,
            source.key,
            destination.key,
            authority.key,
            amount,
        ),
        result matches Err(error) ==> error == TransferError::IncorrectProgramId,
{
    match spl_token_transfer(
        &token_program.key,
        &source.key,
        &destination.key,
        &authority.key,
        amount,
    ) {
        Ok(call) => Ok(call),
        Err(_) => Err(TransferError::IncorrectProgramId),
    }
}

} // verus!
