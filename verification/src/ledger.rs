//! The storage of the ledger: slots by key, and the rules for creating a
//! slot and for reading and writing the state record it stores.

use crate::error::{AllocationError, DeserializeError, SerializeError};
use crate::pubkey::Pubkey;
use crate::rent::{
    lemma_minimum_balance_bounds, rent_minimum_balance, spec_minimum_balance,
    MAX_PERMITTED_DATA_LENGTH,
};
use crate::state::{ArbitrageState, STATE_LEN};
use vstd::prelude::*;

verus! {

/// One storage slot of the ledger: its funding, the program that owns it,
/// and the bytes it stores.
#[derive(Clone, Debug, PartialEq, Eq)]
pub struct Slot {
    /// Funding of the slot, in lamports.
    pub lamports: u64,
    /// The program that may write to the slot.
    pub owner: Pubkey,
    /// The bytes the slot stores.
    pub data: Vec<u8>,
}

/// What a [`Slot`] holds.
pub struct SlotView {
    /// Funding of the slot, in lamports.
    pub lamports: u64,
    /// The program that may write to the slot.
    pub owner: Pubkey,
    /// The bytes the slot stores.
    pub data: Seq<u8>,
}

impl View for Slot {
    type V = SlotView;

    open spec fn view(&self) -> SlotView {
        SlotView { lamports: self.lamports, owner: self.owner, data: self.data@ }
    }
}

/// A slot together with the key it is found under.
struct Entry {
    key: Pubkey,
    slot: Slot,
}

/// The storage of the ledger, as far as a call can see it: a map from keys
/// to slots.
///
/// A key without a slot stands for a slot that was never used: it has no
/// funds and stores nothing.
pub struct Ledger {
    entries: Vec<Entry>,
}

/// Funding of the slot under `key`.
pub open spec fn spec_balance(ledger: Map<Pubkey, SlotView>, key: Pubkey) -> u64 {
    if ledger.dom().contains(key) {
        ledger[key].lamports
    } else {
        0
    }
}

/// The bytes stored under `key`.
pub open spec fn spec_data(ledger: Map<Pubkey, SlotView>, key: Pubkey) -> Seq<u8> {
    if ledger.dom().contains(key) {
        ledger[key].data
    } else {
        Seq::empty()
    }
}

/// Whether the slot under `key` holds funds or data.
pub open spec fn spec_in_use(ledger: Map<Pubkey, SlotView>, key: Pubkey) -> bool {
    spec_balance(ledger, key) > 0 || spec_data(ledger, key).len() > 0
}

/// The ledger after `funder` has paid for a new slot of `size` zero bytes
/// under `target`, owned by `owner`; or why no slot is created.
///
/// The new slot is funded with exactly the least funding that lets a slot of
/// its size persist, taken from the funder.
pub open spec fn spec_allocate(
    ledger: Map<Pubkey, SlotView>,
    funder: Pubkey,
    target: Pubkey,
    size: nat,
    owner: Pubkey,
) -> Result<Map<Pubkey, SlotView>, AllocationError> {
    if spec_in_use(ledger, target) {
        Err(AllocationError::AlreadyExists)
    } else if spec_balance(ledger, funder) < spec_minimum_balance(size) {
        Err(AllocationError::InsufficientFunding)
    } else {
        Ok(
            ledger.insert(
                funder,
                SlotView {
                    lamports: (ledger[funder].lamports - spec_minimum_balance(size)) as u64,
                    owner: ledger[funder].owner,
                    data: ledger[funder].data,
                },
            ).insert(
                target,
                SlotView {
                    lamports: spec_minimum_balance(size) as u64,
                    owner,
                    data: Seq::new(size, |i: int| 0u8),
                },
            ),
        )
    }
}

/// The record stored under `key`, or why there is none.
pub open spec fn spec_read(ledger: Map<Pubkey, SlotView>, key: Pubkey) -> Result<
    ArbitrageState,
    DeserializeError,
> {
    match ArbitrageState::spec_decode(spec_data(ledger, key)) {
        Some(state) => Ok(state),
        None => Err(DeserializeError::BadLayout),
    }
}

/// The ledger after `state` has been stored under `key`, or why it cannot be.
///
/// The record takes the first `STATE_LEN` bytes of the slot; bytes behind
/// them, funding and owner stay as they are.
pub open spec fn spec_write(
    ledger: Map<Pubkey, SlotView>,
    key: Pubkey,
    state: ArbitrageState,
) -> Result<Map<Pubkey, SlotView>, SerializeError> {
    let data = spec_data(ledger, key);
    if data.len() < STATE_LEN {
        Err(SerializeError::BadLayout)
    } else {
        Ok(
            ledger.insert(
                key,
                SlotView {
                    lamports: ledger[key].lamports,
                    owner: ledger[key].owner,
                    data: state.spec_encode() + data.subrange(STATE_LEN as int, data.len() as int),
                },
            ),
        )
    }
}

impl Ledger {
    /// Whether some entry is found under `key`.
    spec fn has(entries: Seq<Entry>, key: Pubkey) -> bool {
        exists|i: int| 0 <= i < entries.len() && #[trigger] entries[i].key == key
    }

    /// Where the entry under `key` stands, if there is one.
    spec fn index_of(entries: Seq<Entry>, key: Pubkey) -> int {
        choose|i: int| 0 <= i < entries.len() && #[trigger] entries[i].key == key
    }

    /// Whether no two entries are found under the same key.
    spec fn distinct(entries: Seq<Entry>) -> bool {
        forall|i: int, j: int|
            0 <= i < j < entries.len() ==> #[trigger] entries[i].key != #[trigger] entries[j].key
    }

    /// The map that a list of entries stands for.
    spec fn map_of(entries: Seq<Entry>) -> Map<Pubkey, SlotView> {
        Map::new(
            |key: Pubkey| Self::has(entries, key),
            |key: Pubkey| entries[Self::index_of(entries, key)].slot@,
        )
    }

    /// No key is held twice.
    #[verifier::type_invariant]
    spec fn well_formed(self) -> bool {
        Self::distinct(self.entries@)
    }

    /// The slots of the ledger by their keys.
    pub closed spec fn view(&self) -> Map<Pubkey, SlotView> {
        Self::map_of(self.entries@)
    }

    /// Each entry is what the map holds under its key.
    proof fn lemma_entry(entries: Seq<Entry>, i: int)
        requires
            Self::distinct(entries),
            0 <= i < entries.len(),
        ensures
            Self::map_of(entries).dom().contains(entries[i].key),
            Self::map_of(entries)[entries[i].key] == entries[i].slot@,
    {
        let key = entries[i].key;
        assert(Self::has(entries, key));
        let j = Self::index_of(entries, key);
        assert(entries[j].key == key);
        assert(i == j);
    }

    /// Replacing the slot of an entry replaces it in the map.
    proof fn lemma_replace(entries: Seq<Entry>, i: int, slot: Slot)
        requires
            Self::distinct(entries),
            0 <= i < entries.len(),
        ensures
            Self::distinct(entries.update(i, Entry { key: entries[i].key, slot })),
            Self::map_of(entries.update(i, Entry { key: entries[i].key, slot })) == Self::map_of(
                entries,
            ).insert(entries[i].key, slot@),
    {
        let key = entries[i].key;
        let after = entries.update(i, Entry { key, slot });
        assert forall|a: int, b: int| 0 <= a < b < after.len() implies #[trigger] after[a].key
            != #[trigger] after[b].key by {
            assert(after[a].key == entries[a].key);
            assert(after[b].key == entries[b].key);
        }
        assert forall|k: Pubkey| Self::has(after, k) == Self::has(entries, k) by {
            if Self::has(entries, k) {
                let j = Self::index_of(entries, k);
                assert(after[j].key == k);
            }
            if Self::has(after, k) {
                let j = Self::index_of(after, k);
                assert(entries[j].key == k);
            }
        }
        assert forall|k: Pubkey| #[trigger]
            Self::has(after, k) implies Self::map_of(after)[k] == Self::map_of(entries).insert(
            key,
            slot@,
        )[k] by {
            let j = Self::index_of(after, k);
            assert(after[j].key == k);
            Self::lemma_entry(after, j);
            if j != i {
                assert(entries[j].key == k);
                Self::lemma_entry(entries, j);
            }
        }
        assert(Self::map_of(after) =~= Self::map_of(entries).insert(key, slot@));
    }

    /// Adding an entry under a new key adds it to the map.
    proof fn lemma_push(entries: Seq<Entry>, key: Pubkey, slot: Slot)
        requires
            Self::distinct(entries),
            !Self::has(entries, key),
        ensures
            Self::distinct(entries.push(Entry { key, slot })),
            Self::map_of(entries.push(Entry { key, slot })) == Self::map_of(entries).insert(
                key,
                slot@,
            ),
    {
        let after = entries.push(Entry { key, slot });
        let last = entries.len() as int;
        assert forall|a: int, b: int| 0 <= a < b < after.len() implies #[trigger] after[a].key
            != #[trigger] after[b].key by {
            assert(after[a].key == entries[a].key);
            if b < last {
                assert(after[b].key == entries[b].key);
            }
        }
        assert(after[last].key == key);
        assert forall|k: Pubkey| Self::has(after, k) == (k == key || Self::has(entries, k)) by {
            if Self::has(entries, k) {
                let j = Self::index_of(entries, k);
                assert(after[j].key == k);
            }
            if Self::has(after, k) && k != key {
                let j = Self::index_of(after, k);
                assert(entries[j].key == k);
            }
        }
        assert forall|k: Pubkey| #[trigger]
            Self::has(after, k) implies Self::map_of(after)[k] == Self::map_of(entries).insert(
            key,
            slot@,
        )[k] by {
            let j = Self::index_of(after, k);
            assert(after[j].key == k);
            Self::lemma_entry(after, j);
            if j != last {
                assert(entries[j].key == k);
                Self::lemma_entry(entries, j);
            }
        }
        assert(Self::map_of(after) =~= Self::map_of(entries).insert(key, slot@));
    }

    /// Where the entry under `key` stands, if there is one.
    fn position(&self, key: &Pubkey) -> (found: Option<usize>)
        ensures
            found matches Some(i) ==> i < self.entries@.len() && self.entries@[i as int].key
                == *key,
            found is None ==> !Self::has(self.entries@, *key),
            found is Some <==> self@.dom().contains(*key),
    {
        let mut i: usize = 0;
        while i < self.entries.len()
            invariant
                i <= self.entries@.len(),
                forall|j: int| 0 <= j < i ==> (#[trigger] self.entries@[j]).key != *key,
            decreases self.entries@.len() - i,
        {
            if self.entries[i].key == *key {
                return Some(i);
            }
            i += 1;
        }
        None
    }

    /// A ledger in which no slot was ever used.
    pub fn new() -> (ledger: Ledger)
        ensures
            ledger@ == Map::<Pubkey, SlotView>::empty(),
    {
        let ledger = Ledger { entries: Vec::new() };
        assert(ledger@ =~= Map::<Pubkey, SlotView>::empty());
        ledger
    }

    /// The slot under `key`, if the ledger holds one.
    pub fn get(&self, key: &Pubkey) -> (found: Option<&Slot>)
        ensures
            found is Some <==> self@.dom().contains(*key),
            found matches Some(slot) ==> slot@ == self@[*key],
    {
        proof {
            use_type_invariant(self);
        }
        match self.position(key) {
            Some(i) => {
                proof {
                    Self::lemma_entry(self.entries@, i as int);
                }
                Some(&self.entries[i].slot)
            },
            None => None,
        }
    }

    /// Puts `slot` under `key`, in place of what was there.
    ///
    /// This is how a host loads the slots a call may touch.
    pub fn put(&mut self, key: Pubkey, slot: Slot)
        ensures
            final(self)@ == old(self)@.insert(key, slot@),
    {
        proof {
            use_type_invariant(&*self);
        }
        let found: Option<usize> = self.position(&key);
        let mut entries: Vec<Entry> = Vec::new();
        core::mem::swap(&mut entries, &mut self.entries);
        match found {
            Some(i) => {
                proof {
                    Self::lemma_replace(entries@, i as int, slot);
                }
                entries[i] = Entry { key, slot };
            },
            None => {
                proof {
                    Self::lemma_push(entries@, key, slot);
                }
                entries.push(Entry { key, slot });
            },
        }
        self.entries = entries;
    }

    /// Creates the slot under `target`: `size` zero bytes, owned by `owner`,
    /// funded by `funder` with the least funding that lets it persist.
    ///
    /// Fails with `AlreadyExists` when the target already holds funds or
    /// data, else with `InsufficientFunding` when the funder holds less than
    /// that funding. A failed call leaves the ledger as it was.
    pub fn allocate(&mut self, funder: &Pubkey, target: &Pubkey, size: usize, owner: &Pubkey) -> (result:
        Result<(), AllocationError>)
        requires
            size <= MAX_PERMITTED_DATA_LENGTH,
        ensures
            match spec_allocate(old(self)@, *funder, *target, size as nat, *owner) {
                Ok(after) => result is Ok && final(self)@ == after,
                Err(error) => result == Err::<(), AllocationError>(error) && final(self)@ == old(
                    self,
                )@,
            },
    {
        proof {
            lemma_minimum_balance_bounds(size as nat);
        }
        if let Some(slot) = self.get(target) {
            if slot.lamports > 0 || slot.data.len() > 0 {
                return Err(AllocationError::AlreadyExists);
            }
        }
        let funding: u64 = rent_minimum_balance(size);
        let paid: Slot = match self.get(funder) {
            Some(slot) => {
                if slot.lamports < funding {
                    return Err(AllocationError::InsufficientFunding);
                }
                Slot { lamports: slot.lamports - funding, owner: slot.owner, data: slot.data.clone() }
            },
            None => {
                return Err(AllocationError::InsufficientFunding);
            },
        };
        let mut data: Vec<u8> = Vec::new();
        let mut i: usize = 0;
        while i < size
            invariant
                i <= size,
                data@ == Seq::new(i as nat, |j: int| 0u8),
            decreases size - i,
        {
            data.push(0u8);
            i += 1;
        }
        self.put(*funder, paid);
        self.put(*target, Slot { lamports: funding, owner: *owner, data });
        Ok(())
    }

    /// Reads the state record stored under `key`.
    ///
    /// Fails with `BadLayout` when the slot was never used or does not have
    /// the length of a record.
    pub fn read(&self, key: &Pubkey) -> (result: Result<ArbitrageState, DeserializeError>)
        ensures
            result == spec_read(self@, *key),
    {
        match self.get(key) {
            Some(slot) => ArbitrageState::decode(slot.data.as_slice()),
            None => {
                Err(DeserializeError::BadLayout)
            },
        }
    }

    /// Stores `state` in the slot under `key`.
    ///
    /// Fails with `BadLayout`, leaving the ledger as it was, when the slot is
    /// shorter than a record.
    pub fn write(&mut self, key: &Pubkey, state: &ArbitrageState) -> (result: Result<
        (),
        SerializeError,
    >)
        ensures
            match spec_write(old(self)@, *key, *state) {
                Ok(after) => result is Ok && final(self)@ == after,
                Err(error) => result == Err::<(), SerializeError>(error) && final(self)@ == old(
                    self,
                )@,
            },
    {
        let written: Slot = match self.get(key) {
            Some(slot) => {
                if slot.data.len() < STATE_LEN {
                    return Err(SerializeError::BadLayout);
                }
                let mut data: Vec<u8> = state.encode();
                let mut i: usize = STATE_LEN;
                while i < slot.data.len()
                    invariant
                        STATE_LEN <= i <= slot.data@.len(),
                        data@ == state.spec_encode() + slot.data@.subrange(
                            STATE_LEN as int,
                            i as int,
                        ),
                    decreases slot.data@.len() - i,
                {
                    data.push(slot.data[i]);
                    i += 1;
                }
                Slot { lamports: slot.lamports, owner: slot.owner, data }
            },
            None => {
                return Err(SerializeError::BadLayout);
            },
        };
        self.put(*key, written);
        Ok(())
    }
}

} // verus!
