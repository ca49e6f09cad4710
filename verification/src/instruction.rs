//! The instructions of the program and their wire format.

use crate::error::DecodeError;
use crate::wire::{
    lemma_u64_wire_canonical, lemma_u64_wire_roundtrip, u64_from_wire, u64_to_wire, U64_LEN,
};
use vstd::bytes::{spec_u64_from_le_bytes, spec_u64_to_le_bytes};
use vstd::prelude::*;
use vstd::slice::slice_subrange;

verus! {

/// Tag byte of [`ArbitrageInstruction::Initialize`].
pub const TAG_INITIALIZE: u8 = 0;

/// Tag byte of [`ArbitrageInstruction::ExecuteArbitrage`].
pub const TAG_EXECUTE_ARBITRAGE: u8 = 1;

/// Length in bytes of an encoded [`ArbitrageInstruction::Initialize`].
pub const INITIALIZE_LEN: usize = 1;

/// Length in bytes of an encoded [`ArbitrageInstruction::ExecuteArbitrage`].
pub const EXECUTE_ARBITRAGE_LEN: usize = 1 + U64_LEN;

/// The instructions the program understands.
///
/// On the wire an instruction is one tag byte followed by the fields of the
/// variant, each in fixed width and little-endian, with nothing after them.
#[derive(Clone, Copy, Debug, PartialEq, Eq, Structural)]
pub enum ArbitrageInstruction {
    /// Create the state record.
    ///
    /// Accounts, by position:
    /// 0. signer, writable: the funder, who becomes the authority
    /// 1. writable: the slot that will hold the state record
    /// 2. the system program
    Initialize,
    /// Record one arbitrage operation.
    ///
    /// Accounts, by position:
    /// 0. signer: the authority
    /// 1. writable: the slot of the state record
    /// 2. writable: the token account value is taken from
    /// 3. writable: the token account value is sent to
    /// 4. the token program
    ExecuteArbitrage {
        /// Amount of tokens to swap.
        amount: u64,
    },
}

impl ArbitrageInstruction {
    /// The bytes that stand for an instruction.
    pub open spec fn spec_encode(self) -> Seq<u8> {
        match self {
            ArbitrageInstruction::Initialize => seq![TAG_INITIALIZE],
            ArbitrageInstruction::ExecuteArbitrage { amount } => seq![TAG_EXECUTE_ARBITRAGE]
                + spec_u64_to_le_bytes(amount),
        }
    }

    /// The instruction that `bytes` stand for, if they stand for one.
    pub open spec fn spec_decode(bytes: Seq<u8>) -> Option<ArbitrageInstruction> {
        if bytes.len() == INITIALIZE_LEN && bytes[0] == TAG_INITIALIZE {
            Some(ArbitrageInstruction::Initialize)
        } else if bytes.len() == EXECUTE_ARBITRAGE_LEN && bytes[0] == TAG_EXECUTE_ARBITRAGE {
            Some(
                ArbitrageInstruction::ExecuteArbitrage {
                    amount: spec_u64_from_le_bytes(
                        bytes.subrange(1, EXECUTE_ARBITRAGE_LEN as int),
                    ),
                },
            )
        } else {
            None
        }
    }

    /// Encodes the instruction.
    pub fn encode(&self) -> (bytes: Vec<u8>)
        ensures
            bytes@ == self.spec_encode(),
    {
        let mut bytes: Vec<u8> = Vec::new();
        match self {
            ArbitrageInstruction::Initialize => {
                bytes.push(TAG_INITIALIZE);
            },
            ArbitrageInstruction::ExecuteArbitrage { amount } => {
                bytes.push(TAG_EXECUTE_ARBITRAGE);
                let mut field: Vec<u8> = u64_to_wire(*amount);
                bytes.append(&mut field);
            },
        }
        bytes
    }

    /// Decodes an instruction payload.
    ///
    /// Succeeds exactly on the encodings of instructions; every other input
    /// is `Malformed`.
    pub fn decode(bytes: &[u8]) -> (result: Result<ArbitrageInstruction, DecodeError>)
        ensures
            result == match Self::spec_decode(bytes@) {
                Some(instruction) => Ok::<ArbitrageInstruction, DecodeError>(instruction),
                None => Err::<ArbitrageInstruction, DecodeError>(DecodeError::Malformed),
            },
    {
        if bytes.len() == 0 {
            return Err(DecodeError::Malformed);
        }
        let tag: u8 = bytes[0];
        let payload: &[u8] = slice_subrange(bytes, 1, bytes.len());
        if tag == TAG_INITIALIZE {
            if payload.len() == 0 {
                Ok(ArbitrageInstruction::Initialize)
            } else {
                Err(DecodeError::Malformed)
            }
        } else if tag == TAG_EXECUTE_ARBITRAGE {
            match u64_from_wire(payload) {
                Some(amount) => Ok(ArbitrageInstruction::ExecuteArbitrage { amount }),
                None => Err(DecodeError::Malformed),
            }
        } else {
            Err(DecodeError::Malformed)
        }
    }

    /// Decoding the encoding of an instruction gives that instruction back.
    pub proof fn lemma_decode_encode(instruction: ArbitrageInstruction)
        ensures
            Self::spec_decode(instruction.spec_encode()) == Some(instruction),
    {
        match instruction {
            ArbitrageInstruction::Initialize => {},
            ArbitrageInstruction::ExecuteArbitrage { amount } => {
                lemma_u64_wire_roundtrip(amount);
                let bytes = instruction.spec_encode();
                assert(bytes.subrange(1, EXECUTE_ARBITRAGE_LEN as int) == spec_u64_to_le_bytes(
                    amount,
                ));
            },
        }
    }

    /// Bytes that decode are the encoding of what they decode to, so no two
    /// byte strings stand for the same instruction.
    pub proof fn lemma_encode_decode(bytes: Seq<u8>)
        requires
            Self::spec_decode(bytes) is Some,
        ensures
            Self::spec_decode(bytes).unwrap().spec_encode() == bytes,
    {
        if bytes.len() == EXECUTE_ARBITRAGE_LEN {
            let amount = bytes.subrange(1, EXECUTE_ARBITRAGE_LEN as int);
            lemma_u64_wire_canonical(amount);
            assert(seq![TAG_EXECUTE_ARBITRAGE] + amount == bytes);
        } else {
            assert(seq![TAG_INITIALIZE] == bytes);
        }
    }

    /// An empty payload, an unknown tag, a payload cut short and a payload
    /// with bytes after its last field are all rejected.
    pub proof fn lemma_decode_rejects(bytes: Seq<u8>)
        requires
            ({
                ||| bytes.len() == 0
                ||| bytes[0] != TAG_INITIALIZE && bytes[0] != TAG_EXECUTE_ARBITRAGE
                ||| bytes[0] == TAG_INITIALIZE && bytes.len() != INITIALIZE_LEN
                ||| bytes[0] == TAG_EXECUTE_ARBITRAGE && bytes.len() != EXECUTE_ARBITRAGE_LEN
            }),
        ensures
            Self::spec_decode(bytes) is None,
    {
    }
}

} // verus!
