use arbitrage::error::{AllocationError, DeserializeError, SerializeError};
use arbitrage::{ArbitrageState, Ledger, Pubkey, Slot};

fn key(fill: u8) -> Pubkey {
    Pubkey::new_from_array([fill; 32])
}

fn funded(lamports: u64) -> Slot {
    Slot { lamports, owner: key(0), data: Vec::new() }
}

const STATE_FUNDING: u64 = 1_224_960;

#[test]
fn new_ledger_holds_no_slot() {
    let ledger = Ledger::new();
    assert_eq!(ledger.get(&key(1)), None);
}

#[test]
fn put_then_get_gives_the_slot() {
    let mut ledger = Ledger::new();
    ledger.put(key(1), funded(10));
    ledger.put(key(2), Slot { lamports: 3, owner: key(9), data: vec![1, 2, 3] });
    assert_eq!(ledger.get(&key(1)), Some(&funded(10)));
    assert_eq!(ledger.get(&key(2)), Some(&Slot { lamports: 3, owner: key(9), data: vec![1, 2, 3] }));
    assert_eq!(ledger.get(&key(3)), None);
}

#[test]
fn put_replaces_what_was_there() {
    let mut ledger = Ledger::new();
    ledger.put(key(1), funded(10));
    ledger.put(key(2), funded(20));
    ledger.put(key(1), funded(11));
    assert_eq!(ledger.get(&key(1)), Some(&funded(11)));
    assert_eq!(ledger.get(&key(2)), Some(&funded(20)));
}

#[test]
fn rent_of_a_state_slot_agrees_with_the_ledger_rules() {
    let expected = solana_program::rent::Rent::default().minimum_balance(48);
    assert_eq!(expected, STATE_FUNDING);
    assert_eq!(expected, (128 + 48) * 3480 * 2);
}

#[test]
fn allocate_creates_a_zeroed_funded_slot() {
    let mut ledger = Ledger::new();
    ledger.put(key(1), funded(2_000_000));
    assert_eq!(ledger.allocate(&key(1), &key(2), 48, &key(7)), Ok(()));
    assert_eq!(ledger.get(&key(1)), Some(&funded(2_000_000 - STATE_FUNDING)));
    assert_eq!(
        ledger.get(&key(2)),
        Some(&Slot { lamports: STATE_FUNDING, owner: key(7), data: vec![0u8; 48] })
    );
}

#[test]
fn allocate_funds_by_size() {
    let mut ledger = Ledger::new();
    ledger.put(key(1), funded(10_000_000));
    assert_eq!(ledger.allocate(&key(1), &key(2), 0, &key(7)), Ok(()));
    assert_eq!(ledger.get(&key(2)), Some(&Slot { lamports: 890_880, owner: key(7), data: Vec::new() }));
    assert_eq!(ledger.allocate(&key(1), &key(3), 100, &key(7)), Ok(()));
    assert_eq!(ledger.get(&key(3)).map(|slot| slot.lamports), Some(1_586_880));
    assert_eq!(ledger.get(&key(3)).map(|slot| slot.data.len()), Some(100));
    assert_eq!(ledger.get(&key(1)).map(|slot| slot.lamports), Some(10_000_000 - 890_880 - 1_586_880));
}

#[test]
fn allocate_with_exactly_the_funding_empties_the_funder() {
    let mut ledger = Ledger::new();
    ledger.put(key(1), funded(STATE_FUNDING));
    assert_eq!(ledger.allocate(&key(1), &key(2), 48, &key(7)), Ok(()));
    assert_eq!(ledger.get(&key(1)), Some(&funded(0)));
}

#[test]
fn allocate_rejects_a_slot_with_data() {
    let mut ledger = Ledger::new();
    ledger.put(key(1), funded(2_000_000));
    ledger.put(key(2), Slot { lamports: 0, owner: key(7), data: vec![5] });
    let before = ledger.get(&key(2)).cloned();
    assert_eq!(ledger.allocate(&key(1), &key(2), 48, &key(7)), Err(AllocationError::AlreadyExists));
    assert_eq!(ledger.get(&key(2)).cloned(), before);
    assert_eq!(ledger.get(&key(1)), Some(&funded(2_000_000)));
}

#[test]
fn allocate_rejects_a_slot_with_funds() {
    let mut ledger = Ledger::new();
    ledger.put(key(1), funded(2_000_000));
    ledger.put(key(2), funded(1));
    assert_eq!(ledger.allocate(&key(1), &key(2), 48, &key(7)), Err(AllocationError::AlreadyExists));
    assert_eq!(ledger.get(&key(2)), Some(&funded(1)));
}

#[test]
fn allocate_rejects_the_funder_as_target() {
    let mut ledger = Ledger::new();
    ledger.put(key(1), funded(2_000_000));
    assert_eq!(ledger.allocate(&key(1), &key(1), 48, &key(7)), Err(AllocationError::AlreadyExists));
    assert_eq!(ledger.get(&key(1)), Some(&funded(2_000_000)));
}

#[test]
fn allocate_rejects_a_poor_funder() {
    let mut ledger = Ledger::new();
    ledger.put(key(1), funded(STATE_FUNDING - 1));
    assert_eq!(ledger.allocate(&key(1), &key(2), 48, &key(7)), Err(AllocationError::InsufficientFunding));
    assert_eq!(ledger.get(&key(1)), Some(&funded(STATE_FUNDING - 1)));
    assert_eq!(ledger.get(&key(2)), None);
}

#[test]
fn allocate_rejects_an_unknown_funder() {
    let mut ledger = Ledger::new();
    assert_eq!(ledger.allocate(&key(1), &key(2), 48, &key(7)), Err(AllocationError::InsufficientFunding));
    assert_eq!(ledger.get(&key(2)), None);
}

#[test]
fn allocate_reports_a_used_slot_before_a_poor_funder() {
    let mut ledger = Ledger::new();
    ledger.put(key(2), Slot { lamports: 0, owner: key(7), data: vec![5] });
    assert_eq!(ledger.allocate(&key(1), &key(2), 48, &key(7)), Err(AllocationError::AlreadyExists));
}

#[test]
fn read_gives_what_write_stored() {
    let mut ledger = Ledger::new();
    ledger.put(key(2), Slot { lamports: 5, owner: key(7), data: vec![0u8; 48] });
    let state = ArbitrageState { authority: key(3), arbitrage_count: 12, total_profit: 34 };
    assert_eq!(ledger.write(&key(2), &state), Ok(()));
    assert_eq!(ledger.read(&key(2)), Ok(state));
    assert_eq!(ledger.get(&key(2)), Some(&Slot { lamports: 5, owner: key(7), data: state.encode() }));
}

#[test]
fn read_of_a_zeroed_slot_is_the_zero_record() {
    let mut ledger = Ledger::new();
    ledger.put(key(2), Slot { lamports: 5, owner: key(7), data: vec![0u8; 48] });
    assert_eq!(
        ledger.read(&key(2)),
        Ok(ArbitrageState { authority: key(0), arbitrage_count: 0, total_profit: 0 })
    );
}

#[test]
fn read_rejects_unused_and_misshapen_slots() {
    let mut ledger = Ledger::new();
    ledger.put(key(1), funded(5));
    ledger.put(key(2), Slot { lamports: 5, owner: key(7), data: vec![0u8; 47] });
    ledger.put(key(3), Slot { lamports: 5, owner: key(7), data: vec![0u8; 49] });
    assert_eq!(ledger.read(&key(0)), Err(DeserializeError::BadLayout));
    assert_eq!(ledger.read(&key(1)), Err(DeserializeError::BadLayout));
    assert_eq!(ledger.read(&key(2)), Err(DeserializeError::BadLayout));
    assert_eq!(ledger.read(&key(3)), Err(DeserializeError::BadLayout));
}

#[test]
fn write_rejects_slots_shorter_than_a_record() {
    let mut ledger = Ledger::new();
    ledger.put(key(2), Slot { lamports: 5, owner: key(7), data: vec![1u8; 47] });
    let state = ArbitrageState::new(key(3));
    assert_eq!(ledger.write(&key(2), &state), Err(SerializeError::BadLayout));
    assert_eq!(ledger.get(&key(2)), Some(&Slot { lamports: 5, owner: key(7), data: vec![1u8; 47] }));
    assert_eq!(ledger.write(&key(4), &state), Err(SerializeError::BadLayout));
    assert_eq!(ledger.get(&key(4)), None);
}

#[test]
fn write_keeps_the_bytes_behind_the_record() {
    let mut ledger = Ledger::new();
    ledger.put(key(2), Slot { lamports: 5, owner: key(7), data: vec![1u8; 50] });
    let state = ArbitrageState::new(key(3));
    assert_eq!(ledger.write(&key(2), &state), Ok(()));
    let mut expected = state.encode();
    expected.extend_from_slice(&[1, 1]);
    assert_eq!(ledger.get(&key(2)).map(|slot| slot.data.clone()), Some(expected));
}

#[test]
fn allocate_funds_every_size_by_the_same_rule() {
    for size in [0usize, 1, 47, 48, 49, 1000, 65_536, 10_485_760] {
        let mut ledger = Ledger::new();
        ledger.put(key(1), funded(u64::MAX));
        assert_eq!(ledger.allocate(&key(1), &key(2), size, &key(7)), Ok(()));
        let funding = (128 + size as u64) * 3480 * 2;
        assert_eq!(funding, solana_program::rent::Rent::default().minimum_balance(size));
        let slot = ledger.get(&key(2)).unwrap();
        assert_eq!(slot.lamports, funding);
        assert_eq!(slot.data.len(), size);
        assert!(slot.data.iter().all(|byte| *byte == 0));
        assert_eq!(ledger.get(&key(1)).unwrap().lamports, u64::MAX - funding);
    }
}
