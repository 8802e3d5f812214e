//! Going through a storage, entry by entry.

use vstd::prelude::*;
use crate::entity::key::Key;
use crate::sparse_set::SparseSet;

verus! {

/// The components of a storage, one at a time, in the order of its
/// entries. Nothing is read before it is asked for.
pub struct Iter<'a, T> {
    set: &'a SparseSet<T>,
    next: usize,
}

/// The components of a storage, each with the handle that owns it, one at
/// a time, in the order of the entries.
pub struct WithId<'a, T> {
    iter: Iter<'a, T>,
}

impl<'a, T> Iter<'a, T> {
    /// The storage gone through.
    pub closed spec fn set(&self) -> &SparseSet<T> {
        self.set
    }

    /// Number of entries handed out so far.
    pub closed spec fn position(&self) -> nat {
        self.next as nat
    }

    /// The storage is well-formed and the position is within it.
    pub closed spec fn wf(&self) -> bool {
        self.set.wf() && self.next <= self.set@.len()
    }

    /// An iterator at the first entry of `set`.
    pub fn new(set: &'a SparseSet<T>) -> (iter: Iter<'a, T>)
        requires
            set.wf(),
        ensures
            iter.wf(),
            iter.set() == set,
            iter.position() == 0,
    {
        Iter { set, next: 0 }
    }

    /// The component of the next entry, or nothing once every entry was
    /// handed out.
    pub fn next(&mut self) -> (item: Option<&'a T>)
        requires
            old(self).wf(),
        ensures
            final(self).wf(),
            final(self).set() == old(self).set(),
            old(self).position() < old(self).set()@.len() ==> item == Some(
                &old(self).set()@[old(self).position() as int].1,
            ) && final(self).position() == old(self).position() + 1,
            old(self).position() >= old(self).set()@.len() ==> item is None
                && final(self).position() == old(self).position(),
    {
        if self.next < self.set.len() {
            let value = self.set.value_at(self.next);
            self.next = self.next + 1;
            Some(value)
        } else {
            None
        }
    }

    /// The same entries from the same position on, each component with the
    /// handle that owns it.
    pub fn with_id(self) -> (with_id: WithId<'a, T>)
        requires
            self.wf(),
        ensures
            with_id.wf(),
            with_id.set() == self.set(),
            with_id.position() == self.position(),
    {
        WithId { iter: self }
    }
}

impl<'a, T> WithId<'a, T> {
    /// The storage gone through.
    pub closed spec fn set(&self) -> &SparseSet<T> {
        self.iter.set()
    }

    /// Number of entries handed out so far.
    pub closed spec fn position(&self) -> nat {
        self.iter.position()
    }

    /// The storage is well-formed and the position is within it.
    pub closed spec fn wf(&self) -> bool {
        self.iter.wf()
    }

    /// The next entry, handle and component, or nothing once every entry
    /// was handed out.
    pub fn next(&mut self) -> (item: Option<(Key, &'a T)>)
        requires
            old(self).wf(),
        ensures
            final(self).wf(),
            final(self).set() == old(self).set(),
            old(self).position() < old(self).set()@.len() ==> item == Some(
                (
                    old(self).set()@[old(self).position() as int].0,
                    &old(self).set()@[old(self).position() as int].1,
                ),
            ) && final(self).position() == old(self).position() + 1,
            old(self).position() >= old(self).set()@.len() ==> item is None
                && final(self).position() == old(self).position(),
    {
        if self.iter.next < self.iter.set.len() {
            let key = self.iter.set.key_at(self.iter.next);
            let value = self.iter.set.value_at(self.iter.next);
            self.iter.next = self.iter.next + 1;
            Some((key, value))
        } else {
            None
        }
    }
}

} // verus!
