//! Identifiers of types that can be compared, ordered, hashed and sent
//! elsewhere.

pub mod hasher;

use vstd::prelude::*;
use vstd::std_specs::convert::FromSpecImpl;
use vstd::std_specs::cmp::PartialEqSpecImpl;
use crate::type_id::hasher::TypeIdHasher;

verus! {

/// `core::any::TypeId`, the native identifier of a type: carried through
/// as a value of which nothing is known.
#[verifier::external_type_specification]
#[verifier::external_body]
pub struct ExNativeTypeId(core::any::TypeId);

/// The word that the hasher holds once a native identifier was fed to it:
/// a function of the identifier and of the word that the hasher held
/// before. Which word it is, is not documented.
pub uninterp spec fn native_word(id: core::any::TypeId, before: u64) -> u64;

/// Feeds the native identifier to the hasher, as the `Hash` impl of
/// `core::any::TypeId` does. What that impl writes is not documented; it
/// depends on the identifier alone, as `Hash` asks of every impl, so the
/// word that the hasher holds afterwards is the one that `native_word`
/// names.
#[verifier::external_body]
fn feed(type_id: &core::any::TypeId, hasher: &mut TypeIdHasher)
    ensures
        final(hasher).state() == native_word(*type_id, old(hasher).state()),
{
    core::hash::Hash::hash(type_id, hasher);
}

/// The native identifier of a type: `core::any::TypeId::of`.
#[verifier::external_body]
fn native_id<T: ?Sized + 'static>() -> (id: core::any::TypeId) {
    core::any::TypeId::of::<T>()
}

/// The identifier of a type: 32 bits taken from the hash that is the native
/// identifier of the type.
#[derive(Clone, Copy, PartialEq, Eq, Structural, Hash, Debug, PartialOrd, Ord)]
pub struct TypeId(pub(crate) u32);

impl TypeId {
    /// The 32 bits of the identifier.
    pub closed spec fn spec_bits(self) -> u32 {
        self.0
    }

    /// The identifier made of the given 32 bits.
    pub closed spec fn spec_from_bits(bits: u32) -> TypeId {
        TypeId(bits)
    }

    /// The identifier that a 64-bit hash gives: the one made of its low 32
    /// bits.
    pub open spec fn spec_from_hash(hash: u64) -> TypeId {
        TypeId::spec_from_bits((hash % 0x1_0000_0000) as u32)
    }

    /// The identifier that a native one gives: the one that the word gives
    /// which a hasher holding 0 holds after the native identifier was fed
    /// to it.
    pub open spec fn spec_from_native(native: core::any::TypeId) -> TypeId {
        TypeId::spec_from_hash(native_word(native, 0))
    }

    /// An identifier is its 32 bits and nothing else: the identifier made
    /// of given bits has these bits, and identifiers with the same bits are
    /// the same.
    pub proof fn lemma_bits(id: TypeId)
        ensures
            TypeId::spec_from_bits(id.spec_bits()) == id,
            forall|bits: u32| #[trigger] TypeId::spec_from_bits(bits).spec_bits() == bits,
            forall|other: TypeId| other.spec_bits() == id.spec_bits() ==> other == id,
    {
    }

    /// The identifier made of the given 32 bits.
    pub fn from_bits(bits: u32) -> (id: TypeId)
        ensures
            id == TypeId::spec_from_bits(bits),
            id.spec_bits() == bits,
    {
        TypeId(bits)
    }

    /// The 32 bits of the identifier.
    #[verifier::when_used_as_spec(spec_bits)]
    pub fn bits(self) -> (bits: u32)
        ensures
            bits == self.spec_bits(),
    {
        self.0
    }

    /// The identifier that a 64-bit hash gives: its low 32 bits.
    pub fn from_hash(hash: u64) -> (id: TypeId)
        ensures
            id == TypeId::spec_from_hash(hash),
            id.spec_bits() == hash % 0x1_0000_0000,
    {
        assert(hash & 0xFFFF_FFFF == hash % 0x1_0000_0000) by (bit_vector);
        assert(hash & 0xFFFF_FFFF <= 0xFFFF_FFFF) by (bit_vector);
        TypeId((hash & 0xFFFF_FFFF) as u32)
    }

    /// The identifier of the type `T`: the one that its native identifier
    /// gives.
    pub fn of<T: ?Sized + 'static>() -> (id: TypeId)
        ensures
            exists|native: core::any::TypeId| id == TypeId::spec_from_native(native),
    {
        TypeId::from(native_id::<T>())
    }

    /// The identifier of the type of a value: the one that the native
    /// identifier of that type gives. The value is not read.
    pub fn of_val<T: ?Sized + 'static>(_value: &T) -> (id: TypeId)
        ensures
            exists|native: core::any::TypeId| id == TypeId::spec_from_native(native),
    {
        TypeId::from(native_id::<T>())
    }

    /// Whether this is the identifier that the native one gives.
    pub fn is(&self, native: &core::any::TypeId) -> (equal: bool)
        ensures
            equal <==> *self == TypeId::spec_from_native(*native),
    {
        let mut hasher = TypeIdHasher::new();
        feed(native, &mut hasher);
        self.is_hash(hasher.digest())
    }

    /// Whether this is the identifier that a 64-bit hash gives: whether
    /// its bits are the low 32 bits of the hash.
    pub fn is_hash(&self, hash: u64) -> (equal: bool)
        ensures
            equal <==> *self == TypeId::spec_from_hash(hash),
            equal <==> self.spec_bits() == hash % 0x1_0000_0000,
    {
        self.0 == TypeId::from_hash(hash).0
    }
}

impl From<core::any::TypeId> for TypeId {
    /// The identifier that a native one gives: the hasher takes what the
    /// native identifier writes, and the digest is cut to 32 bits.
    fn from(type_id: core::any::TypeId) -> (id: TypeId) {
        let mut hasher = TypeIdHasher::new();
        feed(&type_id, &mut hasher);
        TypeId::from_hash(hasher.digest())
    }
}

impl<'a> From<&'a core::any::TypeId> for TypeId {
    /// The identifier that a native one gives.
    fn from(type_id: &'a core::any::TypeId) -> (id: TypeId) {
        let mut hasher = TypeIdHasher::new();
        feed(type_id, &mut hasher);
        TypeId::from_hash(hasher.digest())
    }
}

impl<'a> FromSpecImpl<&'a core::any::TypeId> for TypeId {
    open spec fn obeys_from_spec() -> bool {
        true
    }

    open spec fn from_spec(type_id: &'a core::any::TypeId) -> TypeId {
        TypeId::spec_from_native(*type_id)
    }
}

impl FromSpecImpl<core::any::TypeId> for TypeId {
    open spec fn obeys_from_spec() -> bool {
        true
    }

    open spec fn from_spec(type_id: core::any::TypeId) -> TypeId {
        TypeId::spec_from_native(type_id)
    }
}

impl PartialEq<core::any::TypeId> for TypeId {
    /// Whether this is the identifier that the native one gives.
    fn eq(&self, other: &core::any::TypeId) -> (equal: bool) {
        self.is(other)
    }
}

impl PartialEqSpecImpl<core::any::TypeId> for TypeId {
    open spec fn obeys_eq_spec() -> bool {
        true
    }

    open spec fn eq_spec(&self, other: &core::any::TypeId) -> bool {
        *self == TypeId::spec_from_native(*other)
    }
}

impl PartialEq<TypeId> for core::any::TypeId {
    /// Whether `other` is the identifier that this native one gives.
    fn eq(&self, other: &TypeId) -> (equal: bool) {
        other.is(self)
    }
}

impl PartialEqSpecImpl<TypeId> for core::any::TypeId {
    open spec fn obeys_eq_spec() -> bool {
        true
    }

    open spec fn eq_spec(&self, other: &TypeId) -> bool {
        *other == TypeId::spec_from_native(*self)
    }
}

} // verus!
