//! What holds of the program as a whole, proved over the model of a call.

use crate::account::{spec_validate_execute, spec_validate_initialize, AccountRef};
use crate::error::{AllocationError, ArbitrageError, DeserializeError};
use crate::instruction::ArbitrageInstruction;
use crate::ledger::{spec_balance, spec_data, spec_in_use, spec_read, SlotView};
use crate::processor::{
    spec_execute, spec_initialize, spec_process_instruction, spec_state_funding, OutcomeView,
};
use crate::pubkey::Pubkey;
use crate::rent::lemma_minimum_balance_bounds;
use crate::state::{ArbitrageState, STATE_LEN};
use vstd::prelude::*;

verus! {

/// `Initialize` on accounts that pass validation, with a slot that holds
/// neither funds nor data and a funder who can pay for it, succeeds and
/// leaves in the slot a record with the funder as authority, no operation
/// counted and no profit.
///
/// The slot then has the size of a record, belongs to the program and holds
/// exactly its funding, which the funder has paid; no other slot changes.
pub proof fn lemma_initialize_creates_record(
    program_id: Pubkey,
    accounts: Seq<AccountRef>,
    ledger: Map<Pubkey, SlotView>,
)
    requires
        spec_validate_initialize(accounts) is Ok,
        !spec_in_use(ledger, accounts[1].key),
        spec_balance(ledger, accounts[0].key) >= spec_state_funding(),
    ensures
        ({
            let after = spec_initialize(program_id, accounts, ledger);
            let funder = accounts[0].key;
            let state = accounts[1].key;
            &&& after.result is Ok
            &&& spec_read(after.ledger, state) == Ok::<ArbitrageState, DeserializeError>(
                ArbitrageState { authority: funder, arbitrage_count: 0, total_profit: 0 },
            )
            &&& spec_data(after.ledger, state).len() == STATE_LEN
            &&& after.ledger[state].owner == program_id
            &&& after.ledger[state].lamports == spec_state_funding()
            &&& funder != state
            &&& spec_balance(after.ledger, funder) == spec_balance(ledger, funder)
                - spec_state_funding()
            &&& spec_data(after.ledger, funder) == spec_data(ledger, funder)
            &&& forall|key: Pubkey|
                key != funder && key != state ==> after.ledger.dom().contains(key)
                    == ledger.dom().contains(key) && after.ledger[key] == ledger[key]
        }),
{
    lemma_minimum_balance_bounds(STATE_LEN as nat);
    let record = ArbitrageState::spec_new(accounts[0].key);
    ArbitrageState::lemma_decode_encode(record);
    ArbitrageState::lemma_encode_len(record);
}

/// `Initialize` on a slot that already stores data fails with
/// `AlreadyExists` and leaves the whole ledger, and so every byte of that
/// slot, as it was.
pub proof fn lemma_initialize_rejects_used_slot(
    program_id: Pubkey,
    accounts: Seq<AccountRef>,
    ledger: Map<Pubkey, SlotView>,
)
    requires
        spec_validate_initialize(accounts) is Ok,
        spec_data(ledger, accounts[1].key).len() > 0,
    ensures
        spec_initialize(program_id, accounts, ledger).result == Err::<OutcomeView, ArbitrageError>(
            ArbitrageError::Allocation(AllocationError::AlreadyExists),
        ),
        spec_initialize(program_id, accounts, ledger).ledger == ledger,
{
}

/// Initialization is single-shot: once `Initialize` has succeeded on a slot,
/// every further `Initialize` on that slot, by whomever and for whichever
/// program, fails with `AlreadyExists` and changes nothing.
pub proof fn lemma_initialize_is_single_shot(
    program_id: Pubkey,
    accounts: Seq<AccountRef>,
    ledger: Map<Pubkey, SlotView>,
    again_program_id: Pubkey,
    again_accounts: Seq<AccountRef>,
)
    requires
        spec_initialize(program_id, accounts, ledger).result is Ok,
        spec_validate_initialize(again_accounts) is Ok,
        again_accounts[1].key == accounts[1].key,
    ensures
        ({
            let first = spec_initialize(program_id, accounts, ledger);
            let second = spec_initialize(again_program_id, again_accounts, first.ledger);
            &&& second.result == Err::<OutcomeView, ArbitrageError>(
                ArbitrageError::Allocation(AllocationError::AlreadyExists),
            )
            &&& second.ledger == first.ledger
        }),
{
    ArbitrageState::lemma_encode_len(ArbitrageState::spec_new(accounts[0].key));
    lemma_initialize_rejects_used_slot(
        again_program_id,
        again_accounts,
        spec_initialize(program_id, accounts, ledger).ledger,
    );
}

/// `ExecuteArbitrage` signed by the authority of the record counts exactly
/// one operation: the counter grows by one, authority and profit stay, the
/// slot keeps its size, owner and funding, and no other slot changes.
///
/// A counter at its maximum cannot grow; such a record is left out here.
pub proof fn lemma_execute_counts_one(
    accounts: Seq<AccountRef>,
    amount: u64,
    ledger: Map<Pubkey, SlotView>,
    record: ArbitrageState,
)
    requires
        spec_validate_execute(accounts) is Ok,
        spec_read(ledger, accounts[1].key) == Ok::<ArbitrageState, DeserializeError>(
            record,
        ),
        record.authority == accounts[0].key,
        record.arbitrage_count < u64::MAX,
    ensures
        ({
            let after = spec_execute(accounts, amount, ledger);
            let state = accounts[1].key;
            &&& after.result == Ok::<OutcomeView, ArbitrageError>(OutcomeView::Executed { amount })
            &&& spec_read(after.ledger, state) == Ok::<ArbitrageState, DeserializeError>(
                ArbitrageState {
                    authority: record.authority,
                    arbitrage_count: (record.arbitrage_count + 1) as u64,
                    total_profit: record.total_profit,
                },
            )
            &&& spec_data(after.ledger, state).len() == spec_data(ledger, state).len()
            &&& after.ledger[state].owner == ledger[state].owner
            &&& after.ledger[state].lamports == ledger[state].lamports
            &&& after.ledger.dom() == ledger.dom()
            &&& forall|key: Pubkey| key != state ==> after.ledger[key] == ledger[key]
        }),
{
    let counted = record.spec_record_operation();
    ArbitrageState::lemma_decode_encode(counted);
    ArbitrageState::lemma_encode_len(counted);
    let after = spec_execute(accounts, amount, ledger);
    assert(after.ledger.dom() =~= ledger.dom());
}

/// `ExecuteArbitrage` signed by anyone but the authority of the record
/// fails with `Unauthorized` and changes nothing, however often it is tried.
pub proof fn lemma_execute_rejects_stranger(
    accounts: Seq<AccountRef>,
    amount: u64,
    ledger: Map<Pubkey, SlotView>,
    record: ArbitrageState,
)
    requires
        spec_validate_execute(accounts) is Ok,
        spec_read(ledger, accounts[1].key) == Ok::<ArbitrageState, DeserializeError>(
            record,
        ),
        record.authority != accounts[0].key,
    ensures
        spec_execute(accounts, amount, ledger).result == Err::<OutcomeView, ArbitrageError>(
            ArbitrageError::Unauthorized,
        ),
        spec_execute(accounts, amount, ledger).ledger == ledger,
{
}

/// A payload that is no instruction fails with `InvalidInstruction` before
/// any account is looked at, and changes nothing.
pub proof fn lemma_malformed_payload_is_rejected(
    program_id: Pubkey,
    accounts: Seq<AccountRef>,
    instruction_data: Seq<u8>,
    ledger: Map<Pubkey, SlotView>,
)
    requires
        ArbitrageInstruction::spec_decode(instruction_data) is None,
    ensures
        spec_process_instruction(program_id, accounts, instruction_data, ledger).result == Err::<
            OutcomeView,
            ArbitrageError,
        >(ArbitrageError::InvalidInstruction),
        spec_process_instruction(program_id, accounts, instruction_data, ledger).ledger == ledger,
{
}

/// Every call is atomic: one that fails leaves the ledger as it was.
pub proof fn lemma_failure_changes_nothing(
    program_id: Pubkey,
    accounts: Seq<AccountRef>,
    instruction_data: Seq<u8>,
    ledger: Map<Pubkey, SlotView>,
)
    requires
        spec_process_instruction(program_id, accounts, instruction_data, ledger).result is Err,
    ensures
        spec_process_instruction(program_id, accounts, instruction_data, ledger).ledger == ledger,
{
}

/// Whatever is called, a slot that stores a record goes on storing one: its
/// authority never changes, its counter never falls, and its size stays that
/// of a record.
pub proof fn lemma_records_only_advance(
    program_id: Pubkey,
    accounts: Seq<AccountRef>,
    instruction_data: Seq<u8>,
    ledger: Map<Pubkey, SlotView>,
    key: Pubkey,
)
    requires
        spec_read(ledger, key) is Ok,
    ensures
        ({
            let after = spec_process_instruction(program_id, accounts, instruction_data, ledger);
            let before = spec_read(ledger, key).unwrap();
            &&& spec_data(after.ledger, key).len() == STATE_LEN
            &&& spec_read(after.ledger, key) matches Ok(record)
            &&& record.authority == before.authority
            &&& record.arbitrage_count >= before.arbitrage_count
        }),
{
    let after = spec_process_instruction(program_id, accounts, instruction_data, ledger);
    let before = spec_read(ledger, key).unwrap();
    if after.result is Ok {
        match ArbitrageInstruction::spec_decode(instruction_data) {
            Some(ArbitrageInstruction::Initialize) => {
                assert(spec_in_use(ledger, key));
                assert(key != accounts[1].key);
            },
            Some(ArbitrageInstruction::ExecuteArbitrage { amount }) => {
                if key == accounts[1].key {
                    lemma_execute_counts_one(accounts, amount, ledger, before);
                }
            },
            None => {},
        }
    }
}

} // verus!
