//! The account list of a call and its validation.

use crate::error::ArbitrageError;
use crate::pubkey::Pubkey;
use vstd::prelude::*;

verus! {

/// Number of accounts `Initialize` consumes.
pub const INITIALIZE_ACCOUNTS: usize = 3;

/// Number of accounts `ExecuteArbitrage` consumes.
pub const EXECUTE_ACCOUNTS: usize = 5;

/// One entry of the account list that comes with an instruction.
///
/// The entry names a storage slot by its key and says with which rights the
/// caller handed it over. Its meaning is fixed by its position in the list.
///
/// Of the two rights the program tests the signature only. Whether a slot
/// may be written is the ledger's to enforce when the call commits.
#[derive(Clone, Copy, Debug, PartialEq, Eq)]
pub struct AccountRef {
    /// Identity of the account.
    pub key: Pubkey,
    /// Did this account authorize the call?
    pub is_signer: bool,
    /// May the call change this account?
    pub is_writable: bool,
}

/// The accounts of `Initialize`, in the order in which they are consumed.
#[derive(Clone, Copy, Debug, PartialEq, Eq)]
pub struct InitializeAccounts {
    /// Pays for the new slot and becomes the authority.
    pub funder: AccountRef,
    /// The slot that will hold the state record.
    pub state: AccountRef,
    /// The system program, which creates the slot.
    pub system_program: AccountRef,
}

/// The accounts of `ExecuteArbitrage`, in the order in which they are consumed.
#[derive(Clone, Copy, Debug, PartialEq, Eq)]
pub struct ExecuteAccounts {
    /// Must be the authority stored in the state record.
    pub authority: AccountRef,
    /// The slot of the state record.
    pub state: AccountRef,
    /// The token account value is taken from.
    pub source: AccountRef,
    /// The token account value is sent to.
    pub destination: AccountRef,
    /// The token program, which moves value.
    pub token_program: AccountRef,
}

/// What validating the accounts of `Initialize` gives.
pub open spec fn spec_validate_initialize(accounts: Seq<AccountRef>) -> Result<
    InitializeAccounts,
    ArbitrageError,
> {
    if accounts.len() < INITIALIZE_ACCOUNTS {
        Err(ArbitrageError::InsufficientAccounts)
    } else if !accounts[0].is_signer {
        Err(ArbitrageError::MissingSignature)
    } else {
        Ok(InitializeAccounts { funder: accounts[0], state: accounts[1], system_program: accounts[2] })
    }
}

/// What validating the accounts of `ExecuteArbitrage` gives.
pub open spec fn spec_validate_execute(accounts: Seq<AccountRef>) -> Result<
    ExecuteAccounts,
    ArbitrageError,
> {
    if accounts.len() < EXECUTE_ACCOUNTS {
        Err(ArbitrageError::InsufficientAccounts)
    } else if !accounts[0].is_signer {
        Err(ArbitrageError::MissingSignature)
    } else {
        Ok(
            ExecuteAccounts {
                authority: accounts[0],
                state: accounts[1],
                source: accounts[2],
                destination: accounts[3],
                token_program: accounts[4],
            },
        )
    }
}

/// Takes the account at `position` and moves the position past it.
///
/// Fails with `InsufficientAccounts`, leaving the position where it was,
/// when the list has no account there.
pub fn next_account(accounts: &[AccountRef], position: &mut usize) -> (result: Result<
    AccountRef,
    ArbitrageError,
>)
    ensures
        result is Ok <==> *old(position) < accounts@.len(),
        result matches Ok(account) ==> {
            &&& account == accounts@[*old(position) as int]
            &&& *final(position) == *old(position) + 1
        },
        result matches Err(error) ==> {
            &&& error == ArbitrageError::InsufficientAccounts
            &&& *final(position) == *old(position)
        },
{
    if *position < accounts.len() {
        let account: AccountRef = accounts[*position];
        *position = *position + 1;
        Ok(account)
    } else {
        Err(ArbitrageError::InsufficientAccounts)
    }
}

/// Consumes and checks the accounts of `Initialize`.
///
/// The list must hold three accounts, and the first must have signed.
/// A list that is too short is reported before a missing signature.
pub fn validate_initialize(accounts: &[AccountRef]) -> (result: Result<
    InitializeAccounts,
    ArbitrageError,
>)
    ensures
        result == spec_validate_initialize(accounts@),
{
    let mut position: usize = 0;
    let funder: AccountRef = next_account(accounts, &mut position)?;
    let state: AccountRef = next_account(accounts, &mut position)?;
    let system_program: AccountRef = next_account(accounts, &mut position)?;
    if !funder.is_signer {
        return Err(ArbitrageError::MissingSignature);
    }
    Ok(InitializeAccounts { funder, state, system_program })
}

/// Consumes and checks the accounts of `ExecuteArbitrage`.
///
/// The list must hold five accounts, and the first must have signed.
/// A list that is too short is reported before a missing signature.
pub fn validate_execute(accounts: &[AccountRef]) -> (result: Result<
    ExecuteAccounts,
    ArbitrageError,
>)
    ensures
        result == spec_validate_execute(accounts@),
{
    let mut position: usize = 0;
    let authority: AccountRef = next_account(accounts, &mut position)?;
    let state: AccountRef = next_account(accounts, &mut position)?;
    let source: AccountRef = next_account(accounts, &mut position)?;
    let destination: AccountRef = next_account(accounts, &mut position)?;
    let token_program: AccountRef = next_account(accounts, &mut position)?;
    if !authority.is_signer {
        return Err(ArbitrageError::MissingSignature);
    }
    Ok(ExecuteAccounts { authority, state, source, destination, token_program })
}

} // verus!
