//! The fixed-width integer fields of the wire formats.
//!
//! Both the instruction payload and the state record store their integers
//! as Borsh does, and Borsh itself reads and writes them here.

use vstd::bytes::{spec_u64_from_le_bytes, spec_u64_to_le_bytes};
use vstd::prelude::*;

verus! {

/// Width in bytes of an unsigned 64-bit field on the wire.
pub const U64_LEN: usize = 8;

/// Encodes one unsigned 64-bit field.
///
/// Trusted: calls `borsh::to_vec` on a `u64`. Borsh writes an integer as its
/// eight little-endian bytes, and writing into a fresh vector cannot fail.
#[verifier::external_body]
pub(crate) fn u64_to_wire(value: u64) -> (bytes: Vec<u8>)
    ensures
        bytes@ == spec_u64_to_le_bytes(value),
{
    borsh::to_vec(&value).unwrap()
}

/// Decodes one unsigned 64-bit field that must fill `bytes` exactly.
///
/// Trusted: calls `borsh::from_slice::<u64>`. Borsh reads eight bytes as a
/// little-endian integer; it fails when fewer than eight bytes are given and
/// when any byte is left unread.
#[verifier::external_body]
pub(crate) fn u64_from_wire(bytes: &[u8]) -> (value: Option<u64>)
    ensures
        value is Some <==> bytes@.len() == U64_LEN,
        value matches Some(v) ==> v == spec_u64_from_le_bytes(bytes@),
{
    borsh::from_slice::<u64>(bytes).ok()
}

/// Reading back what was written gives the value that was written.
pub proof fn lemma_u64_wire_roundtrip(value: u64)
    ensures
        spec_u64_to_le_bytes(value).len() == U64_LEN,
        spec_u64_from_le_bytes(spec_u64_to_le_bytes(value)) == value,
{
    vstd::bytes::lemma_auto_spec_u64_to_from_le_bytes();
}

/// Eight bytes are the encoding of the value they decode to, and of no other.
pub proof fn lemma_u64_wire_canonical(bytes: Seq<u8>)
    requires
        bytes.len() == U64_LEN,
    ensures
        spec_u64_to_le_bytes(spec_u64_from_le_bytes(bytes)) == bytes,
{
    vstd::bytes::lemma_auto_spec_u64_to_from_le_bytes();
}

} // verus!
