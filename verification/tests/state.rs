use arbitrage::error::DeserializeError;
use arbitrage::state::STATE_LEN;
use arbitrage::{ArbitrageState, Pubkey};

fn key(fill: u8) -> Pubkey {
    Pubkey::new_from_array([fill; 32])
}

fn counting_key() -> Pubkey {
    let mut bytes = [0u8; 32];
    for (i, byte) in bytes.iter_mut().enumerate() {
        *byte = i as u8;
    }
    Pubkey::new_from_array(bytes)
}

#[test]
fn pubkey_round_trips_through_bytes() {
    let bytes = counting_key().to_bytes();
    assert_eq!(bytes[0], 0);
    assert_eq!(bytes[31], 31);
    assert_eq!(Pubkey::from_slice(&bytes), Some(counting_key()));
}

#[test]
fn pubkey_from_slice_wants_32_bytes() {
    assert_eq!(Pubkey::from_slice(&[0u8; 31]), None);
    assert_eq!(Pubkey::from_slice(&[0u8; 33]), None);
    assert_eq!(Pubkey::from_slice(&[]), None);
}

#[test]
fn pubkeys_differ_when_one_byte_differs() {
    let mut bytes = [9u8; 32];
    assert!(Pubkey::new_from_array(bytes) == key(9));
    bytes[31] = 8;
    assert!(Pubkey::new_from_array(bytes) != key(9));
    bytes[31] = 9;
    bytes[0] = 8;
    assert!(Pubkey::new_from_array(bytes) != key(9));
}

#[test]
fn new_state_counts_nothing() {
    let state = ArbitrageState::new(key(7));
    assert_eq!(state.authority, key(7));
    assert_eq!(state.arbitrage_count, 0);
    assert_eq!(state.total_profit, 0);
}

#[test]
fn record_operation_adds_one() {
    let state = ArbitrageState { authority: key(1), arbitrage_count: 41, total_profit: 5 };
    assert_eq!(
        state.record_operation(),
        Some(ArbitrageState { authority: key(1), arbitrage_count: 42, total_profit: 5 })
    );
}

#[test]
fn record_operation_stops_at_the_maximum() {
    let state = ArbitrageState { authority: key(1), arbitrage_count: u64::MAX, total_profit: 5 };
    assert_eq!(state.record_operation(), None);
    let below = ArbitrageState { authority: key(1), arbitrage_count: u64::MAX - 1, total_profit: 5 };
    assert_eq!(below.record_operation().map(|s| s.arbitrage_count), Some(u64::MAX));
}

#[test]
fn state_layout_is_authority_count_profit() {
    let state = ArbitrageState {
        authority: counting_key(),
        arbitrage_count: 0x0102_0304_0506_0708,
        total_profit: 1000,
    };
    let bytes = state.encode();
    assert_eq!(bytes.len(), STATE_LEN);
    assert_eq!(bytes.len(), 48);
    assert_eq!(&bytes[..32], &counting_key().to_bytes()[..]);
    assert_eq!(&bytes[32..40], &[8, 7, 6, 5, 4, 3, 2, 1]);
    assert_eq!(&bytes[40..], &[0xe8, 0x03, 0, 0, 0, 0, 0, 0]);
}

#[test]
fn state_decode_inverts_encode() {
    let states = [
        ArbitrageState::new(key(0)),
        ArbitrageState { authority: counting_key(), arbitrage_count: 3, total_profit: 9 },
        ArbitrageState { authority: key(255), arbitrage_count: u64::MAX, total_profit: u64::MAX },
    ];
    for state in states {
        assert_eq!(ArbitrageState::decode(&state.encode()), Ok(state));
    }
}

#[test]
fn state_decode_reads_each_field_from_its_place() {
    let mut bytes = vec![0u8; 48];
    bytes[0] = 0xaa;
    bytes[31] = 0xbb;
    bytes[32] = 2;
    bytes[39] = 1;
    bytes[40] = 3;
    let state = ArbitrageState::decode(&bytes).unwrap();
    assert_eq!(state.authority.to_bytes()[0], 0xaa);
    assert_eq!(state.authority.to_bytes()[31], 0xbb);
    assert_eq!(state.arbitrage_count, (1u64 << 56) + 2);
    assert_eq!(state.total_profit, 3);
}

#[test]
fn state_decode_rejects_wrong_lengths() {
    assert_eq!(ArbitrageState::decode(&[]), Err(DeserializeError::BadLayout));
    assert_eq!(ArbitrageState::decode(&[0u8; 47]), Err(DeserializeError::BadLayout));
    assert_eq!(ArbitrageState::decode(&[0u8; 49]), Err(DeserializeError::BadLayout));
}

#[test]
fn state_encoding_agrees_with_borsh() {
    let state = ArbitrageState { authority: counting_key(), arbitrage_count: 77, total_profit: 1 << 50 };
    let expected =
        borsh::to_vec(&(state.authority.to_bytes(), state.arbitrage_count, state.total_profit)).unwrap();
    assert_eq!(state.encode(), expected);
    let (authority, count, profit) = borsh::from_slice::<([u8; 32], u64, u64)>(&state.encode()).unwrap();
    assert_eq!(ArbitrageState::decode(&expected), Ok(state));
    assert_eq!(authority, counting_key().to_bytes());
    assert_eq!(count, 77);
    assert_eq!(profit, 1 << 50);
}
