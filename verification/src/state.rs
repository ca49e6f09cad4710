//! The persistent state record and its layout in a storage slot.

use crate::error::DeserializeError;
use crate::pubkey::{Pubkey, PUBKEY_LEN};
use crate::wire::{lemma_u64_wire_canonical, lemma_u64_wire_roundtrip, u64_from_wire, u64_to_wire};
use vstd::bytes::{spec_u64_from_le_bytes, spec_u64_to_le_bytes};
use vstd::prelude::*;
use vstd::slice::slice_subrange;

verus! {

/// Number of bytes a state record occupies in its slot.
pub const STATE_LEN: usize = 48;

/// Offset of the operation counter within an encoded record.
pub const COUNT_OFFSET: usize = 32;

/// Offset of the accumulated profit within an encoded record.
pub const PROFIT_OFFSET: usize = 40;

/// The persistent record of the program.
///
/// In its slot the record is laid out without padding or version tag: the 32
/// bytes of the authority, then the counter and the profit, eight
/// little-endian bytes each.
#[derive(Clone, Copy, Debug, PartialEq, Eq)]
pub struct ArbitrageState {
    /// The authority who can perform arbitrage operations.
    pub authority: Pubkey,
    /// Total number of arbitrage operations performed.
    pub arbitrage_count: u64,
    /// Total profit accumulated (in lamports).
    pub total_profit: u64,
}

impl ArbitrageState {
    /// The record a slot holds right after initialization by `authority`.
    pub open spec fn spec_new(authority: Pubkey) -> ArbitrageState {
        ArbitrageState { authority, arbitrage_count: 0, total_profit: 0 }
    }

    /// The record after one more completed operation.
    pub open spec fn spec_record_operation(self) -> ArbitrageState {
        ArbitrageState {
            authority: self.authority,
            arbitrage_count: (self.arbitrage_count + 1) as u64,
            total_profit: self.total_profit,
        }
    }

    /// The bytes a record is stored as.
    pub open spec fn spec_encode(self) -> Seq<u8> {
        self.authority@ + spec_u64_to_le_bytes(self.arbitrage_count) + spec_u64_to_le_bytes(
            self.total_profit,
        )
    }

    /// The record that `bytes` store, if their length is that of a record.
    pub open spec fn spec_decode(bytes: Seq<u8>) -> Option<ArbitrageState> {
        if bytes.len() == STATE_LEN {
            Some(
                ArbitrageState {
                    authority: Pubkey::spec_from_bytes(bytes.subrange(0, COUNT_OFFSET as int)),
                    arbitrage_count: spec_u64_from_le_bytes(
                        bytes.subrange(COUNT_OFFSET as int, PROFIT_OFFSET as int),
                    ),
                    total_profit: spec_u64_from_le_bytes(
                        bytes.subrange(PROFIT_OFFSET as int, STATE_LEN as int),
                    ),
                },
            )
        } else {
            None
        }
    }

    /// A fresh record: no operation counted, no profit, `authority` in charge.
    pub fn new(authority: Pubkey) -> (state: ArbitrageState)
        ensures
            state == Self::spec_new(authority),
    {
        ArbitrageState { authority, arbitrage_count: 0, total_profit: 0 }
    }

    /// Counts one more completed operation.
    ///
    /// Returns `None`, and counts nothing, when the counter is at its maximum.
    pub fn record_operation(&self) -> (next: Option<ArbitrageState>)
        ensures
            next is Some <==> self.arbitrage_count < u64::MAX,
            next matches Some(state) ==> state == self.spec_record_operation()
                && state.arbitrage_count == self.arbitrage_count + 1,
    {
        match self.arbitrage_count.checked_add(1) {
            Some(arbitrage_count) => Some(
                ArbitrageState {
                    authority: self.authority,
                    arbitrage_count,
                    total_profit: self.total_profit,
                },
            ),
            None => None,
        }
    }

    /// Encodes the record.
    pub fn encode(&self) -> (bytes: Vec<u8>)
        ensures
            bytes@ == self.spec_encode(),
            bytes@.len() == STATE_LEN,
    {
        let mut bytes: Vec<u8> = Vec::new();
        let mut i: usize = 0;
        while i < PUBKEY_LEN
            invariant
                i <= PUBKEY_LEN,
                bytes@ == self.authority@.subrange(0, i as int),
            decreases PUBKEY_LEN - i,
        {
            bytes.push(self.authority.bytes[i]);
            i += 1;
        }
        assert(bytes@ == self.authority@);
        let mut count: Vec<u8> = u64_to_wire(self.arbitrage_count);
        let mut profit: Vec<u8> = u64_to_wire(self.total_profit);
        proof {
            lemma_u64_wire_roundtrip(self.arbitrage_count);
            lemma_u64_wire_roundtrip(self.total_profit);
        }
        bytes.append(&mut count);
        bytes.append(&mut profit);
        bytes
    }

    /// Decodes a record from the bytes of its slot.
    ///
    /// Succeeds exactly when `bytes` has the length of a record.
    pub fn decode(bytes: &[u8]) -> (result: Result<ArbitrageState, DeserializeError>)
        ensures
            result == match Self::spec_decode(bytes@) {
                Some(state) => Ok::<ArbitrageState, DeserializeError>(state),
                None => Err::<ArbitrageState, DeserializeError>(DeserializeError::BadLayout),
            },
    {
        if bytes.len() != STATE_LEN {
            return Err(DeserializeError::BadLayout);
        }
        let authority: Option<Pubkey> = Pubkey::from_slice(slice_subrange(bytes, 0, COUNT_OFFSET));
        let arbitrage_count: Option<u64> = u64_from_wire(
            slice_subrange(bytes, COUNT_OFFSET, PROFIT_OFFSET),
        );
        let total_profit: Option<u64> = u64_from_wire(
            slice_subrange(bytes, PROFIT_OFFSET, STATE_LEN),
        );
        match (authority, arbitrage_count, total_profit) {
            (Some(authority), Some(arbitrage_count), Some(total_profit)) => Ok(
                ArbitrageState { authority, arbitrage_count, total_profit },
            ),
            _ => Err(DeserializeError::BadLayout),
        }
    }

    /// Every record is stored in exactly `STATE_LEN` bytes.
    pub proof fn lemma_encode_len(state: ArbitrageState)
        ensures
            state.spec_encode().len() == STATE_LEN,
    {
        lemma_u64_wire_roundtrip(state.arbitrage_count);
        lemma_u64_wire_roundtrip(state.total_profit);
    }

    /// Decoding the stored bytes of a record gives that record back.
    pub proof fn lemma_decode_encode(state: ArbitrageState)
        ensures
            Self::spec_decode(state.spec_encode()) == Some(state),
    {
        let bytes = state.spec_encode();
        lemma_u64_wire_roundtrip(state.arbitrage_count);
        lemma_u64_wire_roundtrip(state.total_profit);
        assert(bytes.subrange(0, COUNT_OFFSET as int) == state.authority@);
        assert(bytes.subrange(COUNT_OFFSET as int, PROFIT_OFFSET as int) == spec_u64_to_le_bytes(
            state.arbitrage_count,
        ));
        assert(bytes.subrange(PROFIT_OFFSET as int, STATE_LEN as int) == spec_u64_to_le_bytes(
            state.total_profit,
        ));
        Pubkey::lemma_from_bytes_view(state.authority@);
    }

    /// Bytes of the right length are the stored form of the record they
    /// decode to, so no two byte strings store the same record.
    pub proof fn lemma_encode_decode(bytes: Seq<u8>)
        requires
            bytes.len() == STATE_LEN,
        ensures
            Self::spec_decode(bytes).unwrap().spec_encode() == bytes,
    {
        let authority = bytes.subrange(0, COUNT_OFFSET as int);
        let count = bytes.subrange(COUNT_OFFSET as int, PROFIT_OFFSET as int);
        let profit = bytes.subrange(PROFIT_OFFSET as int, STATE_LEN as int);
        Pubkey::lemma_from_bytes_view(authority);
        lemma_u64_wire_canonical(count);
        lemma_u64_wire_canonical(profit);
        assert(authority + count + profit == bytes);
    }
}

} // verus!
