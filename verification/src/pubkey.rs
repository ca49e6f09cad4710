//! Identity keys.

use vstd::prelude::*;
use vstd::std_specs::cmp::PartialEqSpecImpl;

verus! {

/// Number of bytes in a key.
pub const PUBKEY_LEN: usize = 32;

/// An opaque 32-byte identity key.
///
/// Two keys are the same identity exactly when all 32 bytes agree.
#[derive(Clone, Copy, Debug)]
pub struct Pubkey {
    /// The bytes of the key.
    pub bytes: [u8; 32],
}

impl View for Pubkey {
    type V = Seq<u8>;

    open spec fn view(&self) -> Seq<u8> {
        self.bytes@
    }
}

impl Pubkey {
    /// The key made of the first 32 bytes of `bytes`.
    pub open spec fn spec_from_bytes(bytes: Seq<u8>) -> Pubkey {
        Pubkey {
            bytes: [
                bytes[0], bytes[1], bytes[2], bytes[3], bytes[4], bytes[5], bytes[6], bytes[7],
                bytes[8], bytes[9], bytes[10], bytes[11], bytes[12], bytes[13], bytes[14], bytes[15],
                bytes[16], bytes[17], bytes[18], bytes[19], bytes[20], bytes[21], bytes[22], bytes[23],
                bytes[24], bytes[25], bytes[26], bytes[27], bytes[28], bytes[29], bytes[30], bytes[31],
            ],
        }
    }

    /// Reads a key from exactly 32 bytes.
    pub fn from_slice(bytes: &[u8]) -> (key: Option<Pubkey>)
        ensures
            key is Some <==> bytes@.len() == PUBKEY_LEN,
            key matches Some(k) ==> k == Self::spec_from_bytes(bytes@) && k@ == bytes@,
    {
        if bytes.len() != PUBKEY_LEN {
            return None;
        }
        let mut raw: [u8; 32] = [0u8; 32];
        let mut i: usize = 0;
        while i < PUBKEY_LEN
            invariant
                i <= PUBKEY_LEN,
                bytes@.len() == PUBKEY_LEN,
                forall|j: int| 0 <= j < i ==> raw[j] == bytes[j],
            decreases PUBKEY_LEN - i,
        {
            raw[i] = bytes[i];
            i += 1;
        }
        proof {
            assert(raw =~= Self::spec_from_bytes(bytes@).bytes);
            assert(raw@ =~= bytes@);
        }
        Some(Pubkey { bytes: raw })
    }

    /// Wraps 32 raw bytes as a key.
    pub fn new_from_array(bytes: [u8; 32]) -> (key: Pubkey)
        ensures
            key.bytes == bytes,
            key@ == bytes@,
    {
        Pubkey { bytes }
    }

    /// The raw bytes of the key.
    pub fn to_bytes(&self) -> (bytes: [u8; 32])
        ensures
            bytes == self.bytes,
    {
        self.bytes
    }

    /// A key read from 32 bytes holds those bytes.
    pub proof fn lemma_from_bytes_view(bytes: Seq<u8>)
        requires
            bytes.len() == PUBKEY_LEN,
        ensures
            Self::spec_from_bytes(bytes)@ == bytes,
            forall|key: Pubkey| key@ == bytes ==> key == Self::spec_from_bytes(bytes),
    {
        assert(Self::spec_from_bytes(bytes)@ =~= bytes);
        assert forall|key: Pubkey| key@ == bytes implies key == Self::spec_from_bytes(bytes) by {
            Self::lemma_view_injective(key, Self::spec_from_bytes(bytes));
        }
    }

    /// Keys are determined by their byte sequence.
    pub proof fn lemma_view_injective(a: Pubkey, b: Pubkey)
        ensures
            (a == b) <==> (a@ == b@),
    {
        if a@ == b@ {
            assert forall|i: int| 0 <= i < PUBKEY_LEN implies a.bytes[i] == b.bytes[i] by {
                assert(a@[i] == b@[i]);
            }
            assert(a.bytes =~= b.bytes);
        }
    }
}

impl PartialEq for Pubkey {
    fn eq(&self, other: &Pubkey) -> (r: bool) {
        let mut i: usize = 0;
        while i < PUBKEY_LEN
            invariant
                i <= PUBKEY_LEN,
                forall|j: int| 0 <= j < i ==> self.bytes[j] == other.bytes[j],
            decreases PUBKEY_LEN - i,
        {
            if self.bytes[i] != other.bytes[i] {
                return false;
            }
            i += 1;
        }
        proof {
            assert(self.bytes =~= other.bytes);
        }
        true
    }
}

impl Eq for Pubkey {

}

impl PartialEqSpecImpl for Pubkey {
    open spec fn obeys_eq_spec() -> bool {
        true
    }

    open spec fn eq_spec(&self, other: &Pubkey) -> bool {
        *self == *other
    }
}

} // verus!
