//! The closed set of failures.

use vstd::prelude::*;

verus! {

/// Why an instruction payload could not be decoded.
#[derive(Clone, Copy, Debug, PartialEq, Eq, Structural)]
pub enum DecodeError {
    /// The bytes are not the encoding of any instruction: the tag is unknown,
    /// the payload is cut short, or bytes follow the last field.
    Malformed,
}

/// Why a storage slot could not be created.
#[derive(Clone, Copy, Debug, PartialEq, Eq, Structural)]
pub enum AllocationError {
    /// The target slot already holds funds or data.
    AlreadyExists,
    /// The funder holds less than the slot must be funded with.
    InsufficientFunding,
}

/// Why a slot's bytes could not be read as a state record.
#[derive(Clone, Copy, Debug, PartialEq, Eq, Structural)]
pub enum DeserializeError {
    /// The slot is missing or its length is not that of a record.
    BadLayout,
}

/// Why a state record could not be written into a slot.
#[derive(Clone, Copy, Debug, PartialEq, Eq, Structural)]
pub enum SerializeError {
    /// The record does not fit the fixed layout of the slot.
    BadLayout,
}

/// Every way in which processing an instruction can fail.
///
/// The set is closed: each failure inside the program surfaces as exactly one
/// of these, and none is retried.
#[derive(Clone, Copy, Debug, PartialEq, Eq, Structural)]
pub enum ArbitrageError {
    /// The instruction payload is malformed.
    InvalidInstruction,
    /// Reserved for value movement: the source holds too little.
    InsufficientFunds,
    /// Reserved for value movement: the operation would not pay.
    ArbitrageNotProfitable,
    /// The account that must authorize the call did not sign.
    MissingSignature,
    /// Fewer accounts were supplied than the instruction consumes.
    InsufficientAccounts,
    /// The state record's slot could not be created.
    Allocation(AllocationError),
    /// The state record could not be read from its slot.
    Deserialize(DeserializeError),
    /// The state record could not be written to its slot.
    Serialize(SerializeError),
    /// The signer is not the authority stored in the state record.
    Unauthorized,
}

impl ArbitrageError {
    /// The number under which each failure is reported.
    pub open spec fn spec_code(self) -> u32 {
        match self {
            ArbitrageError::InvalidInstruction => 0,
            ArbitrageError::InsufficientFunds => 1,
            ArbitrageError::ArbitrageNotProfitable => 2,
            ArbitrageError::MissingSignature => 3,
            ArbitrageError::InsufficientAccounts => 4,
            ArbitrageError::Allocation(AllocationError::AlreadyExists) => 5,
            ArbitrageError::Allocation(AllocationError::InsufficientFunding) => 6,
            ArbitrageError::Deserialize(DeserializeError::BadLayout) => 7,
            ArbitrageError::Serialize(SerializeError::BadLayout) => 8,
            ArbitrageError::Unauthorized => 9,
        }
    }

    /// The number under which this failure is reported to the caller.
    pub fn code(&self) -> (code: u32)
        ensures
            code == self.spec_code(),
    {
        match self {
            ArbitrageError::InvalidInstruction => 0,
            ArbitrageError::InsufficientFunds => 1,
            ArbitrageError::ArbitrageNotProfitable => 2,
            ArbitrageError::MissingSignature => 3,
            ArbitrageError::InsufficientAccounts => 4,
            ArbitrageError::Allocation(AllocationError::AlreadyExists) => 5,
            ArbitrageError::Allocation(AllocationError::InsufficientFunding) => 6,
            ArbitrageError::Deserialize(DeserializeError::BadLayout) => 7,
            ArbitrageError::Serialize(SerializeError::BadLayout) => 8,
            ArbitrageError::Unauthorized => 9,
        }
    }

    /// Distinct failures are reported under distinct numbers.
    pub proof fn lemma_codes_distinct(a: ArbitrageError, b: ArbitrageError)
        ensures
            a.spec_code() == b.spec_code() <==> a == b,
    {
    }
}

} // verus!
