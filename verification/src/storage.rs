//! Storages seen without the type of their components: all that deleting
//! an entity needs of them.

use vstd::prelude::*;
use crate::entity::key::Key;
use crate::sparse_set::SparseSet;

verus! {

/// A storage, or several together, from which the components of an entity
/// can be taken away without knowing their type.
pub trait UnknownStorage {
    /// The invariant of the storage.
    spec fn valid(&self) -> bool;

    /// Whether the storage has a component that `key` owns.
    spec fn holds(&self, key: Key) -> bool;

    /// Whether `after` is this storage with what `key` owns taken away, as
    /// `delete` does it: which entries it then has, in which order, and
    /// with which values.
    spec fn purged(&self, key: Key, after: &Self) -> bool;

    /// Whether `key` owns in `after` what it owns here: a component with
    /// an equal value wherever it has one, and none where it has none.
    spec fn kept(&self, key: Key, after: &Self) -> bool;

    /// Keeping is an order of states: a storage keeps for every handle what
    /// it has; what is kept is held or not as before; and what is kept from
    /// one state to the next, and from that to a third, is kept from the
    /// first to the third.
    proof fn lemma_kept(&self, mid: &Self, after: &Self, key: Key)
        ensures
            self.kept(key, self),
            self.kept(key, mid) ==> mid.holds(key) == self.holds(key),
            self.kept(key, mid) && mid.kept(key, after) ==> self.kept(key, after),
    ;

    /// Takes away what `key` owns here. What other handles own stays
    /// theirs, with its value.
    fn delete(&mut self, key: Key)
        requires
            old(self).valid(),
        ensures
            final(self).valid(),
            old(self).purged(key, &*final(self)),
            !final(self).holds(key),
            forall|other: Key| other != key ==> old(self).kept(other, &*final(self)),
            forall|other: Key| other != key ==> final(self).holds(other) == old(self).holds(other),
    ;
}

impl<T> UnknownStorage for SparseSet<T> {
    open spec fn valid(&self) -> bool {
        self.wf()
    }

    open spec fn holds(&self, key: Key) -> bool {
        self.spec_contains(key)
    }

    /// What `remove` does: the last entry stands in the place of the one
    /// that `key` owned, and the entries are one less; nothing changes
    /// where `key` owned none.
    open spec fn purged(&self, key: Key, after: &Self) -> bool {
        &&& after.spec_tracking() == self.spec_tracking()
        &&& after.spec_type_id() == self.spec_type_id()
        &&& after.spec_name() == self.spec_name()
        &&& after.spec_get(key) is None
        &&& forall|other: Key| other != key ==> after.spec_get(other) == self.spec_get(other)
        &&& match self.spec_index_of(key) {
            Some(p) => after@ == self@.update(p as int, self@.last()).drop_last()
                && after.flags() == self.flags().update(p as int, self.flags().last()).drop_last(),
            None => after@ == self@ && after.flags() == self.flags(),
        }
    }

    open spec fn kept(&self, key: Key, after: &Self) -> bool {
        after.spec_get(key) == self.spec_get(key)
    }

    proof fn lemma_kept(&self, mid: &Self, after: &Self, key: Key) {
    }

    /// Removes the component of `key` as `remove` does, and drops it.
    fn delete(&mut self, key: Key) {
        let _ = self.remove(key);
        proof {
            assert forall|other: Key| other != key implies self.holds(other) == old(
                self).holds(other) by {
                assert(self.spec_get(other) == old(self).spec_get(other));
            }
        }
    }
}

/// Several storages together: each is purged in turn, and what holds of
/// the tuple is what holds of each. Tuples of up to ten storages are
/// storages; the impls differ in their length alone.
impl<A: UnknownStorage> UnknownStorage for (A,) {
    open spec fn valid(&self) -> bool {
        &&& self.0.valid()
    }

    open spec fn holds(&self, key: Key) -> bool {
        ||| self.0.holds(key)
    }

    open spec fn purged(&self, key: Key, after: &Self) -> bool {
        &&& self.0.purged(key, &after.0)
    }

    open spec fn kept(&self, key: Key, after: &Self) -> bool {
        &&& self.0.kept(key, &after.0)
    }

    proof fn lemma_kept(&self, mid: &Self, after: &Self, key: Key) {
        self.0.lemma_kept(&mid.0, &after.0, key);
    }

    fn delete(&mut self, key: Key) {
        self.0.delete(key);
    }
}

impl<A: UnknownStorage, B: UnknownStorage> UnknownStorage for (A, B) {
    open spec fn valid(&self) -> bool {
        &&& self.0.valid()
        &&& self.1.valid()
    }

    open spec fn holds(&self, key: Key) -> bool {
        ||| self.0.holds(key)
        ||| self.1.holds(key)
    }

    open spec fn purged(&self, key: Key, after: &Self) -> bool {
        &&& self.0.purged(key, &after.0)
        &&& self.1.purged(key, &after.1)
    }

    open spec fn kept(&self, key: Key, after: &Self) -> bool {
        &&& self.0.kept(key, &after.0)
        &&& self.1.kept(key, &after.1)
    }

    proof fn lemma_kept(&self, mid: &Self, after: &Self, key: Key) {
        self.0.lemma_kept(&mid.0, &after.0, key);
        self.1.lemma_kept(&mid.1, &after.1, key);
    }

    fn delete(&mut self, key: Key) {
        self.0.delete(key);
        self.1.delete(key);
    }
}

impl<A: UnknownStorage, B: UnknownStorage, C: UnknownStorage> UnknownStorage for (A, B, C) {
    open spec fn valid(&self) -> bool {
        &&& self.0.valid()
        &&& self.1.valid()
        &&& self.2.valid()
    }

    open spec fn holds(&self, key: Key) -> bool {
        ||| self.0.holds(key)
        ||| self.1.holds(key)
        ||| self.2.holds(key)
    }

    open spec fn purged(&self, key: Key, after: &Self) -> bool {
        &&& self.0.purged(key, &after.0)
        &&& self.1.purged(key, &after.1)
        &&& self.2.purged(key, &after.2)
    }

    open spec fn kept(&self, key: Key, after: &Self) -> bool {
        &&& self.0.kept(key, &after.0)
        &&& self.1.kept(key, &after.1)
        &&& self.2.kept(key, &after.2)
    }

    proof fn lemma_kept(&self, mid: &Self, after: &Self, key: Key) {
        self.0.lemma_kept(&mid.0, &after.0, key);
        self.1.lemma_kept(&mid.1, &after.1, key);
        self.2.lemma_kept(&mid.2, &after.2, key);
    }

    fn delete(&mut self, key: Key) {
        self.0.delete(key);
        self.1.delete(key);
        self.2.delete(key);
    }
}

impl<A, B, C, D> UnknownStorage for (A, B, C, D) where
    A: UnknownStorage,
    B: UnknownStorage,
    C: UnknownStorage,
    D: UnknownStorage,
{
    open spec fn valid(&self) -> bool {
        &&& self.0.valid()
        &&& self.1.valid()
        &&& self.2.valid()
        &&& self.3.valid()
    }

    open spec fn holds(&self, key: Key) -> bool {
        ||| self.0.holds(key)
        ||| self.1.holds(key)
        ||| self.2.holds(key)
        ||| self.3.holds(key)
    }

    open spec fn purged(&self, key: Key, after: &Self) -> bool {
        &&& self.0.purged(key, &after.0)
        &&& self.1.purged(key, &after.1)
        &&& self.2.purged(key, &after.2)
        &&& self.3.purged(key, &after.3)
    }

    open spec fn kept(&self, key: Key, after: &Self) -> bool {
        &&& self.0.kept(key, &after.0)
        &&& self.1.kept(key, &after.1)
        &&& self.2.kept(key, &after.2)
        &&& self.3.kept(key, &after.3)
    }

    proof fn lemma_kept(&self, mid: &Self, after: &Self, key: Key) {
        self.0.lemma_kept(&mid.0, &after.0, key);
        self.1.lemma_kept(&mid.1, &after.1, key);
        self.2.lemma_kept(&mid.2, &after.2, key);
        self.3.lemma_kept(&mid.3, &after.3, key);
    }

    fn delete(&mut self, key: Key) {
        self.0.delete(key);
        self.1.delete(key);
        self.2.delete(key);
        self.3.delete(key);
    }
}

impl<A, B, C, D, E> UnknownStorage for (A, B, C, D, E) where
    A: UnknownStorage,
    B: UnknownStorage,
    C: UnknownStorage,
    D: UnknownStorage,
    E: UnknownStorage,
{
    open spec fn valid(&self) -> bool {
        &&& self.0.valid()
        &&& self.1.valid()
        &&& self.2.valid()
        &&& self.3.valid()
        &&& self.4.valid()
    }

    open spec fn holds(&self, key: Key) -> bool {
        ||| self.0.holds(key)
        ||| self.1.holds(key)
        ||| self.2.holds(key)
        ||| self.3.holds(key)
        ||| self.4.holds(key)
    }

    open spec fn purged(&self, key: Key, after: &Self) -> bool {
        &&& self.0.purged(key, &after.0)
        &&& self.1.purged(key, &after.1)
        &&& self.2.purged(key, &after.2)
        &&& self.3.purged(key, &after.3)
        &&& self.4.purged(key, &after.4)
    }

    open spec fn kept(&self, key: Key, after: &Self) -> bool {
        &&& self.0.kept(key, &after.0)
        &&& self.1.kept(key, &after.1)
        &&& self.2.kept(key, &after.2)
        &&& self.3.kept(key, &after.3)
        &&& self.4.kept(key, &after.4)
    }

    proof fn lemma_kept(&self, mid: &Self, after: &Self, key: Key) {
        self.0.lemma_kept(&mid.0, &after.0, key);
        self.1.lemma_kept(&mid.1, &after.1, key);
        self.2.lemma_kept(&mid.2, &after.2, key);
        self.3.lemma_kept(&mid.3, &after.3, key);
        self.4.lemma_kept(&mid.4, &after.4, key);
    }

    fn delete(&mut self, key: Key) {
        self.0.delete(key);
        self.1.delete(key);
        self.2.delete(key);
        self.3.delete(key);
        self.4.delete(key);
    }
}

impl<A, B, C, D, E, F> UnknownStorage for (A, B, C, D, E, F) where
    A: UnknownStorage,
    B: UnknownStorage,
    C: UnknownStorage,
    D: UnknownStorage,
    E: UnknownStorage,
    F: UnknownStorage,
{
    open spec fn valid(&self) -> bool {
        &&& self.0.valid()
        &&& self.1.valid()
        &&& self.2.valid()
        &&& self.3.valid()
        &&& self.4.valid()
        &&& self.5.valid()
    }

    open spec fn holds(&self, key: Key) -> bool {
        ||| self.0.holds(key)
        ||| self.1.holds(key)
        ||| self.2.holds(key)
        ||| self.3.holds(key)
        ||| self.4.holds(key)
        ||| self.5.holds(key)
    }

    open spec fn purged(&self, key: Key, after: &Self) -> bool {
        &&& self.0.purged(key, &after.0)
        &&& self.1.purged(key, &after.1)
        &&& self.2.purged(key, &after.2)
        &&& self.3.purged(key, &after.3)
        &&& self.4.purged(key, &after.4)
        &&& self.5.purged(key, &after.5)
    }

    open spec fn kept(&self, key: Key, after: &Self) -> bool {
        &&& self.0.kept(key, &after.0)
        &&& self.1.kept(key, &after.1)
        &&& self.2.kept(key, &after.2)
        &&& self.3.kept(key, &after.3)
        &&& self.4.kept(key, &after.4)
        &&& self.5.kept(key, &after.5)
    }

    proof fn lemma_kept(&self, mid: &Self, after: &Self, key: Key) {
        self.0.lemma_kept(&mid.0, &after.0, key);
        self.1.lemma_kept(&mid.1, &after.1, key);
        self.2.lemma_kept(&mid.2, &after.2, key);
        self.3.lemma_kept(&mid.3, &after.3, key);
        self.4.lemma_kept(&mid.4, &after.4, key);
        self.5.lemma_kept(&mid.5, &after.5, key);
    }

    fn delete(&mut self, key: Key) {
        self.0.delete(key);
        self.1.delete(key);
        self.2.delete(key);
        self.3.delete(key);
        self.4.delete(key);
        self.5.delete(key);
    }
}

impl<A, B, C, D, E, F, G> UnknownStorage for (A, B, C, D, E, F, G) where
    A: UnknownStorage,
    B: UnknownStorage,
    C: UnknownStorage,
    D: UnknownStorage,
    E: UnknownStorage,
    F: UnknownStorage,
    G: UnknownStorage,
{
    open spec fn valid(&self) -> bool {
        &&& self.0.valid()
        &&& self.1.valid()
        &&& self.2.valid()
        &&& self.3.valid()
        &&& self.4.valid()
        &&& self.5.valid()
        &&& self.6.valid()
    }

    open spec fn holds(&self, key: Key) -> bool {
        ||| self.0.holds(key)
        ||| self.1.holds(key)
        ||| self.2.holds(key)
        ||| self.3.holds(key)
        ||| self.4.holds(key)
        ||| self.5.holds(key)
        ||| self.6.holds(key)
    }

    open spec fn purged(&self, key: Key, after: &Self) -> bool {
        &&& self.0.purged(key, &after.0)
        &&& self.1.purged(key, &after.1)
        &&& self.2.purged(key, &after.2)
        &&& self.3.purged(key, &after.3)
        &&& self.4.purged(key, &after.4)
        &&& self.5.purged(key, &after.5)
        &&& self.6.purged(key, &after.6)
    }

    open spec fn kept(&self, key: Key, after: &Self) -> bool {
        &&& self.0.kept(key, &after.0)
        &&& self.1.kept(key, &after.1)
        &&& self.2.kept(key, &after.2)
        &&& self.3.kept(key, &after.3)
        &&& self.4.kept(key, &after.4)
        &&& self.5.kept(key, &after.5)
        &&& self.6.kept(key, &after.6)
    }

    proof fn lemma_kept(&self, mid: &Self, after: &Self, key: Key) {
        self.0.lemma_kept(&mid.0, &after.0, key);
        self.1.lemma_kept(&mid.1, &after.1, key);
        self.2.lemma_kept(&mid.2, &after.2, key);
        self.3.lemma_kept(&mid.3, &after.3, key);
        self.4.lemma_kept(&mid.4, &after.4, key);
        self.5.lemma_kept(&mid.5, &after.5, key);
        self.6.lemma_kept(&mid.6, &after.6, key);
    }

    fn delete(&mut self, key: Key) {
        self.0.delete(key);
        self.1.delete(key);
        self.2.delete(key);
        self.3.delete(key);
        self.4.delete(key);
        self.5.delete(key);
        self.6.delete(key);
    }
}

impl<A, B, C, D, E, F, G, H> UnknownStorage for (A, B, C, D, E, F, G, H) where
    A: UnknownStorage,
    B: UnknownStorage,
    C: UnknownStorage,
    D: UnknownStorage,
    E: UnknownStorage,
    F: UnknownStorage,
    G: UnknownStorage,
    H: UnknownStorage,
{
    open spec fn valid(&self) -> bool {
        &&& self.0.valid()
        &&& self.1.valid()
        &&& self.2.valid()
        &&& self.3.valid()
        &&& self.4.valid()
        &&& self.5.valid()
        &&& self.6.valid()
        &&& self.7.valid()
    }

    open spec fn holds(&self, key: Key) -> bool {
        ||| self.0.holds(key)
        ||| self.1.holds(key)
        ||| self.2.holds(key)
        ||| self.3.holds(key)
        ||| self.4.holds(key)
        ||| self.5.holds(key)
        ||| self.6.holds(key)
        ||| self.7.holds(key)
    }

    open spec fn purged(&self, key: Key, after: &Self) -> bool {
        &&& self.0.purged(key, &after.0)
        &&& self.1.purged(key, &after.1)
        &&& self.2.purged(key, &after.2)
        &&& self.3.purged(key, &after.3)
        &&& self.4.purged(key, &after.4)
        &&& self.5.purged(key, &after.5)
        &&& self.6.purged(key, &after.6)
        &&& self.7.purged(key, &after.7)
    }

    open spec fn kept(&self, key: Key, after: &Self) -> bool {
        &&& self.0.kept(key, &after.0)
        &&& self.1.kept(key, &after.1)
        &&& self.2.kept(key, &after.2)
        &&& self.3.kept(key, &after.3)
        &&& self.4.kept(key, &after.4)
        &&& self.5.kept(key, &after.5)
        &&& self.6.kept(key, &after.6)
        &&& self.7.kept(key, &after.7)
    }

    proof fn lemma_kept(&self, mid: &Self, after: &Self, key: Key) {
        self.0.lemma_kept(&mid.0, &after.0, key);
        self.1.lemma_kept(&mid.1, &after.1, key);
        self.2.lemma_kept(&mid.2, &after.2, key);
        self.3.lemma_kept(&mid.3, &after.3, key);
        self.4.lemma_kept(&mid.4, &after.4, key);
        self.5.lemma_kept(&mid.5, &after.5, key);
        self.6.lemma_kept(&mid.6, &after.6, key);
        self.7.lemma_kept(&mid.7, &after.7, key);
    }

    fn delete(&mut self, key: Key) {
        self.0.delete(key);
        self.1.delete(key);
        self.2.delete(key);
        self.3.delete(key);
        self.4.delete(key);
        self.5.delete(key);
        self.6.delete(key);
        self.7.delete(key);
    }
}

impl<A, B, C, D, E, F, G, H, I> UnknownStorage for (A, B, C, D, E, F, G, H, I) where
    A: UnknownStorage,
    B: UnknownStorage,
    C: UnknownStorage,
    D: UnknownStorage,
    E: UnknownStorage,
    F: UnknownStorage,
    G: UnknownStorage,
    H: UnknownStorage,
    I: UnknownStorage,
{
    open spec fn valid(&self) -> bool {
        &&& self.0.valid()
        &&& self.1.valid()
        &&& self.2.valid()
        &&& self.3.valid()
        &&& self.4.valid()
        &&& self.5.valid()
        &&& self.6.valid()
        &&& self.7.valid()
        &&& self.8.valid()
    }

    open spec fn holds(&self, key: Key) -> bool {
        ||| self.0.holds(key)
        ||| self.1.holds(key)
        ||| self.2.holds(key)
        ||| self.3.holds(key)
        ||| self.4.holds(key)
        ||| self.5.holds(key)
        ||| self.6.holds(key)
        ||| self.7.holds(key)
        ||| self.8.holds(key)
    }

    open spec fn purged(&self, key: Key, after: &Self) -> bool {
        &&& self.0.purged(key, &after.0)
        &&& self.1.purged(key, &after.1)
        &&& self.2.purged(key, &after.2)
        &&& self.3.purged(key, &after.3)
        &&& self.4.purged(key, &after.4)
        &&& self.5.purged(key, &after.5)
        &&& self.6.purged(key, &after.6)
        &&& self.7.purged(key, &after.7)
        &&& self.8.purged(key, &after.8)
    }

    open spec fn kept(&self, key: Key, after: &Self) -> bool {
        &&& self.0.kept(key, &after.0)
        &&& self.1.kept(key, &after.1)
        &&& self.2.kept(key, &after.2)
        &&& self.3.kept(key, &after.3)
        &&& self.4.kept(key, &after.4)
        &&& self.5.kept(key, &after.5)
        &&& self.6.kept(key, &after.6)
        &&& self.7.kept(key, &after.7)
        &&& self.8.kept(key, &after.8)
    }

    proof fn lemma_kept(&self, mid: &Self, after: &Self, key: Key) {
        self.0.lemma_kept(&mid.0, &after.0, key);
        self.1.lemma_kept(&mid.1, &after.1, key);
        self.2.lemma_kept(&mid.2, &after.2, key);
        self.3.lemma_kept(&mid.3, &after.3, key);
        self.4.lemma_kept(&mid.4, &after.4, key);
        self.5.lemma_kept(&mid.5, &after.5, key);
        self.6.lemma_kept(&mid.6, &after.6, key);
        self.7.lemma_kept(&mid.7, &after.7, key);
        self.8.lemma_kept(&mid.8, &after.8, key);
    }

    fn delete(&mut self, key: Key) {
        self.0.delete(key);
        self.1.delete(key);
        self.2.delete(key);
        self.3.delete(key);
        self.4.delete(key);
        self.5.delete(key);
        self.6.delete(key);
        self.7.delete(key);
        self.8.delete(key);
    }
}

impl<A, B, C, D, E, F, G, H, I, J> UnknownStorage for (A, B, C, D, E, F, G, H, I, J) where
    A: UnknownStorage,
    B: UnknownStorage,
    C: UnknownStorage,
    D: UnknownStorage,
    E: UnknownStorage,
    F: UnknownStorage,
    G: UnknownStorage,
    H: UnknownStorage,
    I: UnknownStorage,
    J: UnknownStorage,
{
    open spec fn valid(&self) -> bool {
        &&& self.0.valid()
        &&& self.1.valid()
        &&& self.2.valid()
        &&& self.3.valid()
        &&& self.4.valid()
        &&& self.5.valid()
        &&& self.6.valid()
        &&& self.7.valid()
        &&& self.8.valid()
        &&& self.9.valid()
    }

    open spec fn holds(&self, key: Key) -> bool {
        ||| self.0.holds(key)
        ||| self.1.holds(key)
        ||| self.2.holds(key)
        ||| self.3.holds(key)
        ||| self.4.holds(key)
        ||| self.5.holds(key)
        ||| self.6.holds(key)
        ||| self.7.holds(key)
        ||| self.8.holds(key)
        ||| self.9.holds(key)
    }

    open spec fn purged(&self, key: Key, after: &Self) -> bool {
        &&& self.0.purged(key, &after.0)
        &&& self.1.purged(key, &after.1)
        &&& self.2.purged(key, &after.2)
        &&& self.3.purged(key, &after.3)
        &&& self.4.purged(key, &after.4)
        &&& self.5.purged(key, &after.5)
        &&& self.6.purged(key, &after.6)
        &&& self.7.purged(key, &after.7)
        &&& self.8.purged(key, &after.8)
        &&& self.9.purged(key, &after.9)
    }

    open spec fn kept(&self, key: Key, after: &Self) -> bool {
        &&& self.0.kept(key, &after.0)
        &&& self.1.kept(key, &after.1)
        &&& self.2.kept(key, &after.2)
        &&& self.3.kept(key, &after.3)
        &&& self.4.kept(key, &after.4)
        &&& self.5.kept(key, &after.5)
        &&& self.6.kept(key, &after.6)
        &&& self.7.kept(key, &after.7)
        &&& self.8.kept(key, &after.8)
        &&& self.9.kept(key, &after.9)
    }

    proof fn lemma_kept(&self, mid: &Self, after: &Self, key: Key) {
        self.0.lemma_kept(&mid.0, &after.0, key);
        self.1.lemma_kept(&mid.1, &after.1, key);
        self.2.lemma_kept(&mid.2, &after.2, key);
        self.3.lemma_kept(&mid.3, &after.3, key);
        self.4.lemma_kept(&mid.4, &after.4, key);
        self.5.lemma_kept(&mid.5, &after.5, key);
        self.6.lemma_kept(&mid.6, &after.6, key);
        self.7.lemma_kept(&mid.7, &after.7, key);
        self.8.lemma_kept(&mid.8, &after.8, key);
        self.9.lemma_kept(&mid.9, &after.9, key);
    }

    fn delete(&mut self, key: Key) {
        self.0.delete(key);
        self.1.delete(key);
        self.2.delete(key);
        self.3.delete(key);
        self.4.delete(key);
        self.5.delete(key);
        self.6.delete(key);
        self.7.delete(key);
        self.8.delete(key);
        self.9.delete(key);
    }
}

} // verus!
