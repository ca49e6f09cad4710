use arbitrage::error::DecodeError;
use arbitrage::ArbitrageInstruction;

#[test]
fn encode_initialize_is_one_tag_byte() {
    assert_eq!(ArbitrageInstruction::Initialize.encode(), vec![0u8]);
}

#[test]
fn encode_execute_is_tag_and_little_endian_amount() {
    let bytes = ArbitrageInstruction::ExecuteArbitrage { amount: 1000 }.encode();
    assert_eq!(bytes, vec![1u8, 0xe8, 0x03, 0, 0, 0, 0, 0, 0]);
}

#[test]
fn encode_execute_orders_bytes_from_the_low_end() {
    let bytes = ArbitrageInstruction::ExecuteArbitrage { amount: 0x0102_0304_0506_0708 }.encode();
    assert_eq!(bytes, vec![1u8, 8, 7, 6, 5, 4, 3, 2, 1]);
}

#[test]
fn decode_initialize() {
    assert_eq!(ArbitrageInstruction::decode(&[0]), Ok(ArbitrageInstruction::Initialize));
}

#[test]
fn decode_execute() {
    assert_eq!(
        ArbitrageInstruction::decode(&[1, 0xe8, 0x03, 0, 0, 0, 0, 0, 0]),
        Ok(ArbitrageInstruction::ExecuteArbitrage { amount: 1000 })
    );
}

#[test]
fn decode_execute_reads_bytes_from_the_low_end() {
    assert_eq!(
        ArbitrageInstruction::decode(&[1, 8, 7, 6, 5, 4, 3, 2, 1]),
        Ok(ArbitrageInstruction::ExecuteArbitrage { amount: 0x0102_0304_0506_0708 })
    );
}

#[test]
fn decode_rejects_empty_payload() {
    assert_eq!(ArbitrageInstruction::decode(&[]), Err(DecodeError::Malformed));
}

#[test]
fn decode_rejects_unknown_tag() {
    assert_eq!(ArbitrageInstruction::decode(&[2]), Err(DecodeError::Malformed));
    assert_eq!(ArbitrageInstruction::decode(&[255, 0, 0, 0, 0, 0, 0, 0, 0]), Err(DecodeError::Malformed));
}

#[test]
fn decode_rejects_truncated_amount() {
    assert_eq!(ArbitrageInstruction::decode(&[1]), Err(DecodeError::Malformed));
    assert_eq!(ArbitrageInstruction::decode(&[1, 0xe8, 0x03, 0, 0, 0, 0, 0]), Err(DecodeError::Malformed));
}

#[test]
fn decode_rejects_trailing_bytes() {
    assert_eq!(ArbitrageInstruction::decode(&[0, 0]), Err(DecodeError::Malformed));
    assert_eq!(
        ArbitrageInstruction::decode(&[1, 0xe8, 0x03, 0, 0, 0, 0, 0, 0, 0]),
        Err(DecodeError::Malformed)
    );
}

#[test]
fn decode_inverts_encode() {
    let instructions = [
        ArbitrageInstruction::Initialize,
        ArbitrageInstruction::ExecuteArbitrage { amount: 0 },
        ArbitrageInstruction::ExecuteArbitrage { amount: 1 },
        ArbitrageInstruction::ExecuteArbitrage { amount: 1000 },
        ArbitrageInstruction::ExecuteArbitrage { amount: u64::MAX },
    ];
    for instruction in instructions {
        assert_eq!(ArbitrageInstruction::decode(&instruction.encode()), Ok(instruction));
    }
}

#[test]
fn encode_agrees_with_borsh() {
    assert_eq!(ArbitrageInstruction::Initialize.encode(), borsh::to_vec(&0u8).unwrap());
    for amount in [0u64, 7, 1000, 1 << 40, u64::MAX] {
        assert_eq!(
            ArbitrageInstruction::ExecuteArbitrage { amount }.encode(),
            borsh::to_vec(&(1u8, amount)).unwrap()
        );
    }
}
