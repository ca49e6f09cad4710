//! The processor: one call of the program, from payload and accounts to
//! outcome and ledger.

use crate::account::{
    spec_validate_execute, spec_validate_initialize, validate_execute, validate_initialize,
    AccountRef, ExecuteAccounts, InitializeAccounts,
};
use crate::cpi::{spec_create_account, system_create_account, Instruction, InstructionView};
use crate::error::{AllocationError, ArbitrageError, SerializeError};
use crate::instruction::ArbitrageInstruction;
use crate::ledger::{spec_balance, spec_in_use, spec_read, Ledger, SlotView};
use crate::pubkey::Pubkey;
use crate::rent::{lemma_minimum_balance_bounds, rent_minimum_balance, spec_minimum_balance};
use crate::state::{ArbitrageState, STATE_LEN};
use vstd::prelude::*;

verus! {

/// What a successful call did, for the caller to act on and to log.
#[derive(Clone, Debug, PartialEq, Eq)]
pub enum Outcome {
    /// The state record was created.
    Initialized {
        /// The nested call that asks the system program for the record's slot.
        allocation: Instruction,
    },
    /// One arbitrage operation was recorded.
    Executed {
        /// The amount that was asked for.
        amount: u64,
    },
}

/// What an [`Outcome`] holds.
pub enum OutcomeView {
    /// The state record was created, and this is the allocation asked for.
    Initialized { allocation: InstructionView },
    /// One arbitrage operation was recorded, for this amount.
    Executed { amount: u64 },
}

impl View for Outcome {
    type V = OutcomeView;

    open spec fn view(&self) -> OutcomeView {
        match *self {
            Outcome::Initialized { allocation } => OutcomeView::Initialized {
                allocation: allocation@,
            },
            Outcome::Executed { amount } => OutcomeView::Executed { amount },
        }
    }
}

/// A call seen from outside: what it returned and the ledger it left.
pub struct Transition {
    /// What the call returned.
    pub result: Result<OutcomeView, ArbitrageError>,
    /// The ledger after the call.
    pub ledger: Map<Pubkey, SlotView>,
}

/// The funding of the slot of a state record.
pub open spec fn spec_state_funding() -> u64 {
    spec_minimum_balance(STATE_LEN as nat) as u64
}

/// Why `Initialize` fails, if it does.
///
/// In this order: the account list is too short; the funder did not sign;
/// the slot for the record is already in use; the funder cannot pay for it.
pub open spec fn spec_initialize_error(
    accounts: Seq<AccountRef>,
    ledger: Map<Pubkey, SlotView>,
) -> Option<ArbitrageError> {
    match spec_validate_initialize(accounts) {
        Err(error) => Some(error),
        Ok(checked) => if spec_in_use(ledger, checked.state.key) {
            Some(ArbitrageError::Allocation(AllocationError::AlreadyExists))
        } else if spec_balance(ledger, checked.funder.key) < spec_state_funding() {
            Some(ArbitrageError::Allocation(AllocationError::InsufficientFunding))
        } else {
            None
        },
    }
}

/// `Initialize`, as a function of what the call is given.
///
/// A call that fails leaves the ledger as it was. A call that succeeds takes
/// the funding of the new slot from the funder, hands the slot to the
/// program, and stores in it a fresh record whose authority is the funder.
pub open spec fn spec_initialize(
    program_id: Pubkey,
    accounts: Seq<AccountRef>,
    ledger: Map<Pubkey, SlotView>,
) -> Transition {
    match spec_initialize_error(accounts, ledger) {
        Some(error) => Transition { result: Err(error), ledger },
        None => {
            let funder = accounts[0].key;
            let state = accounts[1].key;
            Transition {
                result: Ok(
                    OutcomeView::Initialized {
                        allocation: spec_create_account(
                            funder,
                            state,
                            spec_state_funding(),
                            STATE_LEN as u64,
                            program_id,
                        ),
                    },
                ),
                ledger: ledger.insert(
                    funder,
                    SlotView {
                        lamports: (ledger[funder].lamports - spec_state_funding()) as u64,
                        owner: ledger[funder].owner,
                        data: ledger[funder].data,
                    },
                ).insert(
                    state,
                    SlotView {
                        lamports: spec_state_funding(),
                        owner: program_id,
                        data: ArbitrageState::spec_new(funder).spec_encode(),
                    },
                ),
            }
        },
    }
}

/// Why `ExecuteArbitrage` fails, if it does.
///
/// In this order: the account list is too short; the authority did not sign;
/// the slot does not store a record; the signer is not the record's
/// authority; the record's counter cannot count further.
pub open spec fn spec_execute_error(
    accounts: Seq<AccountRef>,
    ledger: Map<Pubkey, SlotView>,
) -> Option<ArbitrageError> {
    match spec_validate_execute(accounts) {
        Err(error) => Some(error),
        Ok(checked) => match spec_read(ledger, checked.state.key) {
            Err(error) => Some(ArbitrageError::Deserialize(error)),
            Ok(state) => if state.authority != checked.authority.key {
                Some(ArbitrageError::Unauthorized)
            } else if state.arbitrage_count == u64::MAX {
                Some(ArbitrageError::Serialize(SerializeError::BadLayout))
            } else {
                None
            },
        },
    }
}

/// `ExecuteArbitrage`, as a function of what the call is given.
///
/// A call that fails leaves the ledger as it was. A call that succeeds
/// counts one operation in the record and changes nothing else.
pub open spec fn spec_execute(
    accounts: Seq<AccountRef>,
    amount: u64,
    ledger: Map<Pubkey, SlotView>,
) -> Transition {
    match spec_execute_error(accounts, ledger) {
        Some(error) => Transition { result: Err(error), ledger },
        None => {
            let state = accounts[1].key;
            let record = spec_read(ledger, state).unwrap();
            Transition {
                result: Ok(OutcomeView::Executed { amount }),
                ledger: ledger.insert(
                    state,
                    SlotView {
                        lamports: ledger[state].lamports,
                        owner: ledger[state].owner,
                        data: record.spec_record_operation().spec_encode(),
                    },
                ),
            }
        },
    }
}

/// One call of the program, as a function of what the call is given.
pub open spec fn spec_process_instruction(
    program_id: Pubkey,
    accounts: Seq<AccountRef>,
    instruction_data: Seq<u8>,
    ledger: Map<Pubkey, SlotView>,
) -> Transition {
    match ArbitrageInstruction::spec_decode(instruction_data) {
        None => Transition { result: Err(ArbitrageError::InvalidInstruction), ledger },
        Some(ArbitrageInstruction::Initialize) => spec_initialize(program_id, accounts, ledger),
        Some(ArbitrageInstruction::ExecuteArbitrage { amount }) => spec_execute(
            accounts,
            amount,
            ledger,
        ),
    }
}

/// What a call returned, with the outcome as the value it holds.
pub open spec fn spec_result(result: Result<Outcome, ArbitrageError>) -> Result<
    OutcomeView,
    ArbitrageError,
> {
    match result {
        Ok(outcome) => Ok(outcome@),
        Err(error) => Err(error),
    }
}

/// Creates the state record.
///
/// Checks the accounts, asks for a slot of the size of a record, funded by
/// the funder and owned by `program_id`, and stores a fresh record in it.
pub fn process_initialize(program_id: &Pubkey, accounts: &[AccountRef], ledger: &mut Ledger) -> (result:
    Result<Outcome, ArbitrageError>)
    ensures
        spec_result(result) == spec_initialize(*program_id, accounts@, old(ledger)@).result,
        final(ledger)@ == spec_initialize(*program_id, accounts@, old(ledger)@).ledger,
{
    let checked: InitializeAccounts = validate_initialize(accounts)?;
    proof {
        lemma_minimum_balance_bounds(STATE_LEN as nat);
    }
    let funding: u64 = rent_minimum_balance(STATE_LEN);
    let allocation: Instruction = system_create_account(
        &checked.funder.key,
        &checked.state.key,
        funding,
        STATE_LEN as u64,
        program_id,
    );
    match ledger.allocate(&checked.funder.key, &checked.state.key, STATE_LEN, program_id) {
        Ok(()) => {},
        Err(error) => {
            return Err(ArbitrageError::Allocation(error));
        },
    }
    let state: ArbitrageState = ArbitrageState::new(checked.funder.key);
    proof {
        ArbitrageState::lemma_encode_len(state);
    }
    match ledger.write(&checked.state.key, &state) {
        Ok(()) => {
            assert(final(ledger)@ =~= spec_initialize(*program_id, accounts@, old(ledger)@).ledger);
            Ok(Outcome::Initialized { allocation })
        },
        Err(error) => Err(ArbitrageError::Serialize(error)),
    }
}

/// Records one arbitrage operation.
///
/// Checks the accounts, reads the record, checks that the signer is its
/// authority, counts the operation and stores the record again. A record
/// whose counter is at its maximum cannot be stored with one more operation
/// counted; the call then fails as a write that does not fit the layout.
pub fn process_execute_arbitrage(
    _program_id: &Pubkey,
    accounts: &[AccountRef],
    amount: u64,
    ledger: &mut Ledger,
) -> (result: Result<Outcome, ArbitrageError>)
    ensures
        spec_result(result) == spec_execute(accounts@, amount, old(ledger)@).result,
        final(ledger)@ == spec_execute(accounts@, amount, old(ledger)@).ledger,
{
    let checked: ExecuteAccounts = validate_execute(accounts)?;
    let state: ArbitrageState = match ledger.read(&checked.state.key) {
        Ok(state) => state,
        Err(error) => {
            return Err(ArbitrageError::Deserialize(error));
        },
    };
    if state.authority != checked.authority.key {
        return Err(ArbitrageError::Unauthorized);
    }
    let counted: ArbitrageState = match state.record_operation() {
        Some(counted) => counted,
        None => {
            return Err(ArbitrageError::Serialize(SerializeError::BadLayout));
        },
    };
    proof {
        ArbitrageState::lemma_encode_len(counted);
    }
    match ledger.write(&checked.state.key, &counted) {
        Ok(()) => {
            assert(final(ledger)@ =~= spec_execute(accounts@, amount, old(ledger)@).ledger);
            Ok(Outcome::Executed { amount })
        },
        Err(error) => Err(ArbitrageError::Serialize(error)),
    }
}

/// Processes one call of the program.
///
/// Decodes the instruction and hands the accounts to its handler. A payload
/// that is no instruction is an `InvalidInstruction`. Whatever fails, a
/// failed call leaves the ledger as it was.
pub fn process_instruction(
    program_id: &Pubkey,
    accounts: &[AccountRef],
    instruction_data: &[u8],
    ledger: &mut Ledger,
) -> (result: Result<Outcome, ArbitrageError>)
    ensures
        spec_result(result) == spec_process_instruction(
            *program_id,
            accounts@,
            instruction_data@,
            old(ledger)@,
        ).result,
        final(ledger)@ == spec_process_instruction(
            *program_id,
            accounts@,
            instruction_data@,
            old(ledger)@,
        ).ledger,
{
    let instruction: ArbitrageInstruction = match ArbitrageInstruction::decode(instruction_data) {
        Ok(instruction) => instruction,
        Err(_) => {
            return Err(ArbitrageError::InvalidInstruction);
        },
    };
    match instruction {
        ArbitrageInstruction::Initialize => process_initialize(program_id, accounts, ledger),
        ArbitrageInstruction::ExecuteArbitrage { amount } => process_execute_arbitrage(
            program_id,
            accounts,
            amount,
            ledger,
        ),
    }
}

} // verus!
