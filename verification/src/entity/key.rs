//! The handle format: an index and a version packed into one word.

use vstd::prelude::*;

verus! {

/// Number of bits of a handle that hold the version: 16 on a 64-bit word,
/// 12 on a narrower one.
pub open spec fn spec_version_len() -> nat {
    if usize::BITS == 64 {
        16
    } else {
        12
    }
}

/// Number of distinct indices a handle can hold.
pub open spec fn index_span() -> int {
    if usize::BITS == 64 {
        0x1_0000_0000_0000
    } else {
        0x10_0000
    }
}

/// Number of distinct values of the version field.
pub open spec fn version_span() -> int {
    if usize::BITS == 64 {
        0x1_0000
    } else {
        0x1000
    }
}

/// The version that marks a slot as dead: the largest the field can hold.
/// No handle of a living entity carries it.
pub open spec fn dead_version() -> int {
    version_span() - 1
}

proof fn lemma_fields_64(x: u64)
    by (bit_vector)
    ensures
        x & 0xFFFF_FFFF_FFFF == x % 0x1_0000_0000_0000,
        (x & !0xFFFF_FFFF_FFFFu64) >> 48 == x / 0x1_0000_0000_0000,
        x / 0x1_0000_0000_0000 <= 0xFFFF,
        0xFFFF_FFFF_FFFF_FFFFu64 >> 16 == 0xFFFF_FFFF_FFFF,
        !(0xFFFF_FFFF_FFFF_FFFFu64 >> 15) == 0xFFFE_0000_0000_0000,
        x < 0xFFFE_0000_0000_0000 <==> x / 0x1_0000_0000_0000 < 0xFFFE,
{
}

proof fn lemma_fields_32(x: u32)
    by (bit_vector)
    ensures
        x & 0xF_FFFF == x % 0x10_0000,
        (x & !0xF_FFFFu32) >> 20 == x / 0x10_0000,
        x / 0x10_0000 <= 0xFFF,
        0xFFFF_FFFFu32 >> 12 == 0xF_FFFF,
        !(0xFFFF_FFFFu32 >> 11) == 0xFFE0_0000,
        x < 0xFFE0_0000 <==> x / 0x10_0000 < 0xFFE,
{
}

proof fn lemma_set_index_64(x: u64, i: u64)
    by (bit_vector)
    requires
        i <= 0xFFFF_FFFF_FFFF,
    ensures
        ((x & !0xFFFF_FFFF_FFFFu64) | i) % 0x1_0000_0000_0000 == i,
        ((x & !0xFFFF_FFFF_FFFFu64) | i) / 0x1_0000_0000_0000 == x / 0x1_0000_0000_0000,
{
}

proof fn lemma_set_index_32(x: u32, i: u32)
    by (bit_vector)
    requires
        i <= 0xF_FFFF,
    ensures
        ((x & !0xF_FFFFu32) | i) % 0x10_0000 == i,
        ((x & !0xF_FFFFu32) | i) / 0x10_0000 == x / 0x10_0000,
{
}

proof fn lemma_set_version_64(i: u64, v: u64)
    by (bit_vector)
    requires
        i <= 0xFFFF_FFFF_FFFF,
        v <= 0xFFFF,
    ensures
        (i | (v << 48)) % 0x1_0000_0000_0000 == i,
        (i | (v << 48)) / 0x1_0000_0000_0000 == v,
{
}

proof fn lemma_set_version_32(i: u32, v: u32)
    by (bit_vector)
    requires
        i <= 0xF_FFFF,
        v <= 0xFFF,
    ensures
        (i | (v << 20)) % 0x10_0000 == i,
        (i | (v << 20)) / 0x10_0000 == v,
{
}

proof fn lemma_retire_64(x: u64)
    by (bit_vector)
    ensures
        (x | !0xFFFF_FFFF_FFFFu64) % 0x1_0000_0000_0000 == x % 0x1_0000_0000_0000,
        (x | !0xFFFF_FFFF_FFFFu64) / 0x1_0000_0000_0000 == 0xFFFF,
        x >= !0xFFFF_FFFF_FFFFu64 <==> x / 0x1_0000_0000_0000 == 0xFFFF,
{
}

proof fn lemma_retire_32(x: u32)
    by (bit_vector)
    ensures
        (x | !0xF_FFFFu32) % 0x10_0000 == x % 0x10_0000,
        (x | !0xF_FFFFu32) / 0x10_0000 == 0xFFF,
        x >= !0xF_FFFFu32 <==> x / 0x10_0000 == 0xFFF,
{
}

/// Number of bits of a handle that hold the version.
pub fn version_len() -> (len: u32)
    ensures
        len == spec_version_len(),
{
    if usize::BITS == 64 {
        16
    } else {
        12
    }
}

/// The largest index a handle can hold; as a mask, the bits of the index.
pub fn index_mask() -> (mask: usize)
    ensures
        mask == index_span() - 1,
{
    proof {
        lemma_fields_64(0);
        lemma_fields_32(0);
    }
    usize::MAX >> version_len()
}

/// A handle to an entity: the index of its slot in the low bits, and in the
/// high bits the version that the slot had when the handle was issued.
#[derive(Clone, Copy, PartialEq, Eq, Structural, Hash, Debug)]
pub struct Key(usize);

impl Key {
    /// The index held by the handle.
    pub closed spec fn spec_index(self) -> usize {
        (self.0 as int % index_span()) as usize
    }

    /// The version held by the handle.
    pub closed spec fn spec_version(self) -> usize {
        (self.0 as int / index_span()) as usize
    }

    /// The word that holds both fields.
    pub closed spec fn spec_bits(self) -> usize {
        self.0
    }

    /// The handle that holds the given index and version.
    pub closed spec fn spec_pack(index: usize, version: usize) -> Key {
        Key((version * index_span() + index) as usize)
    }

    /// The handle held by a word.
    pub fn from_bits(bits: usize) -> (key: Key)
        ensures
            key.spec_bits() == bits,
    {
        Key(bits)
    }

    /// The word that holds both fields.
    #[verifier::when_used_as_spec(spec_bits)]
    pub fn bits(self) -> (bits: usize)
        ensures
            bits == self.spec_bits(),
    {
        self.0
    }

    /// Returns the index part of the handle.
    #[verifier::when_used_as_spec(spec_index)]
    pub fn index(self) -> (index: usize)
        ensures
            index == self.spec_index(),
    {
        proof {
            if usize::BITS == 64 {
                lemma_fields_64(self.0 as u64);
            } else {
                lemma_fields_32(self.0 as u32);
            }
        }
        self.0 & index_mask()
    }

    /// Returns the version part of the handle.
    #[verifier::when_used_as_spec(spec_version)]
    pub fn version(self) -> (version: usize)
        ensures
            version == self.spec_version(),
    {
        proof {
            if usize::BITS == 64 {
                lemma_fields_64(self.0 as u64);
            } else {
                lemma_fields_32(self.0 as u32);
            }
        }
        let shift: u32 = usize::BITS - version_len();
        (self.0 & !index_mask()) >> shift
    }

    /// Makes a handle with the given index, at version 0.
    pub fn new(index: usize) -> (key: Key)
        requires
            index < index_span(),
        ensures
            key.spec_index() == index,
            key.spec_version() == 0,
    {
        Key(index)
    }

    /// Packs an index and a version into a handle.
    pub fn pack(index: usize, version: usize) -> (key: Key)
        requires
            index < index_span(),
            version < version_span(),
        ensures
            key == Key::spec_pack(index, version),
            key.spec_index() == index,
            key.spec_version() == version,
    {
        let shift: u32 = usize::BITS - version_len();
        proof {
            if usize::BITS == 64 {
                lemma_set_version_64(index as u64, version as u64);
            } else {
                lemma_set_version_32(index as u32, version as u32);
            }
        }
        Key(index | (version << shift))
    }

    /// Replaces the index and keeps the version.
    pub fn set_index(&mut self, index: usize)
        requires
            index < index_span(),
        ensures
            final(self).spec_index() == index,
            final(self).spec_version() == old(self).spec_version(),
    {
        proof {
            if usize::BITS == 64 {
                lemma_set_index_64(self.0 as u64, index as u64);
            } else {
                lemma_set_index_32(self.0 as u32, index as u32);
            }
        }
        self.0 = (self.0 & !index_mask()) | index;
    }

    /// Increments the version and keeps the index. Fails, leaving the handle
    /// as it was, where the next version would be the one that marks a dead
    /// slot.
    pub fn bump_version(&mut self) -> (bumped: Result<(), ()>)
        ensures
            bumped is Ok <==> old(self).spec_version() + 1 < dead_version(),
            bumped is Ok ==> final(self).spec_version() == old(self).spec_version() + 1
                && final(self).spec_index() == old(self).spec_index(),
            bumped is Err ==> *final(self) == *old(self),
    {
        proof {
            if usize::BITS == 64 {
                lemma_fields_64(self.0 as u64);
            } else {
                lemma_fields_32(self.0 as u32);
            }
        }
        let last: u32 = version_len() - 1;
        if self.0 < !(usize::MAX >> last) {
            let index: usize = self.index();
            let version: usize = self.version() + 1;
            let shift: u32 = usize::BITS - version_len();
            proof {
                if usize::BITS == 64 {
                    lemma_set_version_64(index as u64, version as u64);
                } else {
                    lemma_set_version_32(index as u32, version as u32);
                }
            }
            self.0 = index | (version << shift);
            Ok(())
        } else {
            Err(())
        }
    }

    /// Whether the handle carries the version that marks a dead slot.
    pub fn is_dead(self) -> (dead: bool)
        ensures
            dead <==> self.spec_version() == dead_version(),
    {
        proof {
            if usize::BITS == 64 {
                lemma_retire_64(self.0 as u64);
            } else {
                lemma_retire_32(self.0 as u32);
            }
        }
        self.0 >= !index_mask()
    }

    /// Sets the version to the one that marks a dead slot and keeps the
    /// index.
    pub(crate) fn retire(&mut self)
        ensures
            final(self).spec_index() == old(self).spec_index(),
            final(self).spec_version() == dead_version(),
    {
        proof {
            if usize::BITS == 64 {
                lemma_retire_64(self.0 as u64);
            } else {
                lemma_retire_32(self.0 as u32);
            }
        }
        self.0 = self.0 | !index_mask();
    }

    /// The layout of a handle: the index is the low part of its word and
    /// the version the high part, and the word is all there is to a handle.
    pub proof fn lemma_layout(key: Key)
        ensures
            key.spec_index() == key.spec_bits() % (index_span() as usize),
            key.spec_version() == key.spec_bits() / (index_span() as usize),
            key.spec_bits() == key.spec_version() * index_span() + key.spec_index(),
            forall|other: Key| other.spec_bits() == key.spec_bits() ==> other == key,
    {
        Key::lemma_field_bounds(key);
    }

    /// Both fields of a handle lie within their bit budgets.
    pub proof fn lemma_field_bounds(key: Key)
        ensures
            key.spec_index() < index_span(),
            key.spec_version() < version_span(),
    {
        if usize::BITS == 64 {
            lemma_fields_64(key.0 as u64);
        } else {
            lemma_fields_32(key.0 as u32);
        }
    }

    /// Packing an index and a version that fit their bit budgets, then
    /// unpacking, gives back the same index and version.
    pub proof fn law_round_trip(index: usize, version: usize)
        requires
            index < index_span(),
            version < version_span(),
        ensures
            Key::spec_pack(index, version).spec_index() == index,
            Key::spec_pack(index, version).spec_version() == version,
    {
    }

    /// A handle is the packing of its own index and version: two handles
    /// with the same index and the same version are the same handle.
    pub proof fn law_fields_determine_key(key: Key)
        ensures
            Key::spec_pack(key.spec_index(), key.spec_version()) == key,
    {
        Key::lemma_field_bounds(key);
    }
}

} // verus!
