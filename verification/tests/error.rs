use arbitrage::error::{AllocationError, DeserializeError, SerializeError};
use arbitrage::ArbitrageError;

fn all_errors() -> Vec<ArbitrageError> {
    vec![
        ArbitrageError::InvalidInstruction,
        ArbitrageError::InsufficientFunds,
        ArbitrageError::ArbitrageNotProfitable,
        ArbitrageError::MissingSignature,
        ArbitrageError::InsufficientAccounts,
        ArbitrageError::Allocation(AllocationError::AlreadyExists),
        ArbitrageError::Allocation(AllocationError::InsufficientFunding),
        ArbitrageError::Deserialize(DeserializeError::BadLayout),
        ArbitrageError::Serialize(SerializeError::BadLayout),
        ArbitrageError::Unauthorized,
    ]
}

#[test]
fn program_errors_keep_their_numbers() {
    assert_eq!(ArbitrageError::InvalidInstruction.code(), 0);
    assert_eq!(ArbitrageError::InsufficientFunds.code(), 1);
    assert_eq!(ArbitrageError::ArbitrageNotProfitable.code(), 2);
}

#[test]
fn every_error_has_its_own_number() {
    let errors = all_errors();
    for (i, a) in errors.iter().enumerate() {
        assert_eq!(a.code(), i as u32);
        for b in errors.iter().skip(i + 1) {
            assert_ne!(a.code(), b.code());
        }
    }
}
