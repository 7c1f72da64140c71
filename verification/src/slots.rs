//! Generation-tagged slot keys, backed by a slot map.
//!
//! A [`SlotTable`] hands out a fresh [`SlotKey`] for every index stored in it
//! and finds the index again from the key. Keys travel through the library as
//! plain 64-bit integers: the low half is the slot, the high half the slot's
//! generation, which is odd for every key that was ever handed out.

use slotmap::DefaultKey;
use slotmap::Key;
use slotmap::KeyData;
use slotmap::SlotMap;
use vstd::prelude::*;

verus! {

/// The number of entries at which a slot table is full.
pub const SLOT_LIMIT: usize = 0xFFFF_FFFE;

/// Bits of a key are well formed when the generation in the high half is odd.
pub open spec fn key_bits_ok(bits: u64) -> bool {
    (bits / 0x1_0000_0000) % 2 == 1
}

/// Bits of the null key: the slot in the low half is the largest 32-bit value.
pub open spec fn key_bits_null(bits: u64) -> bool {
    bits % 0x1_0000_0000 == 0xFFFF_FFFF
}

/// Key into a slot table.
#[derive(Clone, Copy, Debug, PartialEq, Eq, Hash, Structural)]
pub struct SlotKey {
    bits: u64,
}

impl SlotKey {
    #[verifier::type_invariant]
    spec fn inv(self) -> bool {
        key_bits_ok(self.bits)
    }

    /// The key as a 64-bit integer.
    pub closed spec fn bits(self) -> u64 {
        self.bits
    }

    /// Whether this is the null key, which no table ever hands out.
    pub open spec fn null(self) -> bool {
        key_bits_null(self.bits())
    }

    /// The null key.
    pub fn null_key() -> (key: SlotKey)
        ensures
            key.null(),
            key.bits() == 0x1_FFFF_FFFFu64,
    {
        SlotKey { bits: 0x1_FFFF_FFFF }
    }

    /// Whether this is the null key.
    pub fn is_null(&self) -> (r: bool)
        ensures
            r == self.null(),
    {
        self.bits % 0x1_0000_0000 == 0xFFFF_FFFF
    }

    /// The key as a 64-bit integer.
    pub fn to_bits(&self) -> (bits: u64)
        ensures
            bits == self.bits(),
            key_bits_ok(bits),
    {
        proof {
            use_type_invariant(self);
        }
        self.bits
    }

    /// Two keys with the same bits are the same key.
    pub proof fn bits_injective(a: SlotKey, b: SlotKey)
        requires
            a.bits() == b.bits(),
        ensures
            a == b,
    {
    }
}

/// A slot map from generation-tagged keys to indices. What it holds is known
/// only through [`slot_entries`].
#[verifier::external_body]
pub struct SlotTable {
    inner: SlotMap<DefaultKey, usize>,
}

/// The live entries of a slot table: each live key, as the 64-bit integer
/// that `KeyData::as_ffi` gives for it, with the index stored under it.
pub uninterp spec fn slot_entries(t: SlotTable) -> Map<u64, usize>;

/// `SlotMap::new`: the new slot map has no live entry.
#[verifier::external_body]
fn slots_new() -> (t: SlotTable)
    ensures
        slot_entries(t).dom() == Set::<u64>::empty(),
{
    SlotTable { inner: SlotMap::new() }
}

/// `SlotMap::insert`, on a map from which nothing is ever removed: it panics
/// when the map is full, so that is left out. The key it returns was not live
/// before, is not the null key and has an odd generation; the value is stored
/// under it and every other entry stays as it was.
#[verifier::external_body]
fn slots_insert(t: &mut SlotTable, index: usize) -> (bits: u64)
    requires
        slot_entries(*old(t)).dom().finite(),
        slot_entries(*old(t)).dom().len() < SLOT_LIMIT,
    ensures
        !slot_entries(*old(t)).contains_key(bits),
        slot_entries(*final(t)) == slot_entries(*old(t)).insert(bits, index),
        key_bits_ok(bits),
        !key_bits_null(bits),
{
    t.inner.insert(index).data().as_ffi()
}

/// `SlotMap::get`, with the key rebuilt by `KeyData::from_ffi`, which gives
/// back the key that `as_ffi` was called on for bits with an odd generation:
/// the value stored under a live key, and `None` for any other key.
#[verifier::external_body]
fn slots_get(t: &SlotTable, bits: u64) -> (r: Option<usize>)
    requires
        key_bits_ok(bits),
    ensures
        r == (if slot_entries(*t).contains_key(bits) {
            Some(slot_entries(*t)[bits])
        } else {
            None
        }),
{
    t.inner.get(DefaultKey::from(KeyData::from_ffi(bits))).copied()
}

impl SlotTable {
    /// The live keys with the index stored under each.
    pub closed spec fn view(self) -> Map<SlotKey, usize> {
        Map::new(
            |k: SlotKey| slot_entries(self).contains_key(k.bits()),
            |k: SlotKey| slot_entries(self)[k.bits()],
        )
    }

    /// The live keys are finitely many, and none of them is malformed.
    pub closed spec fn wf(self) -> bool {
        &&& slot_entries(self).dom().finite()
        &&& self@.dom().finite()
        &&& self@.dom().len() == slot_entries(self).dom().len()
        &&& forall|bits: u64| #[trigger]
            slot_entries(self).contains_key(bits) ==> key_bits_ok(bits) && !key_bits_null(bits)
    }

    /// The number of live keys.
    pub open spec fn count(self) -> nat {
        self@.dom().len()
    }

    /// A table without keys.
    pub fn new() -> (t: SlotTable)
        ensures
            t.wf(),
            t.count() == 0,
            t@ == Map::<SlotKey, usize>::empty(),
    {
        let t = slots_new();
        assert(t@ =~= Map::<SlotKey, usize>::empty());
        t
    }

    /// Stores `index` under a key that was not live before.
    pub fn insert(&mut self, index: usize) -> (key: SlotKey)
        requires
            old(self).wf(),
            old(self).count() < SLOT_LIMIT,
        ensures
            final(self).wf(),
            final(self).count() == old(self).count() + 1,
            !old(self)@.contains_key(key),
            !key.null(),
            final(self)@ == old(self)@.insert(key, index),
    {
        let bits = slots_insert(self, index);
        let key = SlotKey { bits };
        proof {
            assert(self@ =~= old(self)@.insert(key, index)) by {
                assert forall|k: SlotKey| #[trigger] self@.contains_key(k) implies old(
                    self,
                )@.insert(key, index).contains_key(k) by {
                    if k.bits() == bits {
                        SlotKey::bits_injective(k, key);
                    }
                }
            }
        }
        key
    }

    /// The index stored under `key`, if the key is live.
    pub fn get(&self, key: SlotKey) -> (r: Option<usize>)
        requires
            self.wf(),
        ensures
            r == (if self@.contains_key(key) {
                Some(self@[key])
            } else {
                None
            }),
            key.null() ==> r is None,
    {
        proof {
            use_type_invariant(&key);
        }
        slots_get(self, key.bits)
    }
}

} // verus!
