//! Entity handles and the allocator that issues and recycles them.

pub mod key;
pub mod pool;

use vstd::prelude::*;
use crate::entity::key::Key;
use crate::entity::key::dead_version;
use crate::entity::key::index_span;
use crate::entity::key::index_mask;
use crate::entity::pool::lemma_drop_first_contains;
use crate::entity::pool::lemma_push_contains;
use crate::entity::pool::Op;
use crate::entity::pool::Pool;
use crate::entity::pool::Slot;
use crate::sparse_set::SparseSet;
use crate::storage::UnknownStorage;

verus! {

/// Entities holds the handles of all entities: living, removed and dead.
///
/// A living entity is one currently present, with or without components.
/// Removed and dead entities have no component; a removed one can become
/// alive again, a dead one cannot.
///
/// A slot starts at version 0 and each removal increases its version by one,
/// until no version is left and the slot is dead. Removed slots form a linked
/// list inside the vector, each holding in its index part the index of the
/// next one. Slots are added at one end and taken from the other; dead slots
/// are never added.
pub struct Entities {
    data: Vec<Key>,
    /// The newest and the oldest removed slot, in this order.
    list: Option<(usize, usize)>,
    /// The removed slots, oldest first.
    free: Ghost<Seq<usize>>,
}

/// The deletions that `delete_any` makes for the entries of a storage: one
/// for the handle of each entry, from the last entry to the first.
pub open spec fn deletions<T>(entries: Seq<(Key, T)>) -> Seq<Op> {
    Seq::new(entries.len(), |i: int| Op::Delete(entries[entries.len() - 1 - i].0))
}

/// Exclusive access to the entities: what `view_mut` hands out.
pub type EntityViewMut<'a> = &'a mut Entities;

impl Default for Entities {
    /// An allocator with no slot.
    fn default() -> (entities: Entities)
        ensures
            entities.wf(),
            entities@.slots.len() == 0,
            entities@.free.len() == 0,
    {
        Entities::new()
    }
}

impl View for Entities {
    type V = Pool;

    closed spec fn view(&self) -> Pool {
        Pool {
            slots: Seq::new(self.data@.len(), |i: int| self.slot(i)),
            free: self.free@,
        }
    }
}

impl Entities {
    spec fn slot(&self, i: int) -> Slot {
        if self.free@.contains(i as usize) {
            Slot::Removed { version: self.data@[i].version() }
        } else if self.data@[i].version() == dead_version() {
            Slot::Dead
        } else {
            Slot::Live { version: self.data@[i].version() }
        }
    }

    /// The invariant of the allocator: the removed slots are chained, oldest
    /// first, through their index parts; every other slot holds its own
    /// index.
    pub closed spec fn wf(&self) -> bool {
        let free = self.free@;
        &&& self.data@.len() <= index_span()
        &&& free.no_duplicates()
        &&& forall|k: int| 0 <= k < free.len() ==> (#[trigger] free[k]) < self.data@.len()
        &&& forall|k: int|
            0 <= k < free.len() ==> self.data@[(#[trigger] free[k]) as int].version()
                < dead_version()
        &&& forall|k: int|
            0 <= k < free.len() - 1 ==> self.data@[(#[trigger] free[k]) as int].index() == free[k
                + 1]
        &&& forall|i: int|
            0 <= i < self.data@.len() && !free.contains(i as usize) ==> (
            #[trigger] self.data@[i]).index() == i
        &&& match self.list {
            Some((newest, oldest)) => free.len() > 0 && oldest == free[0] && newest == free.last(),
            None => free.len() == 0,
        }
    }

    /// An allocator with no slot.
    pub fn new() -> (entities: Entities)
        ensures
            entities.wf(),
            entities@.slots.len() == 0,
            entities@.free.len() == 0,
    {
        Entities { data: Vec::new(), list: None, free: Ghost(Seq::empty()) }
    }

    /// Number of slots: of indices issued so far.
    pub fn len(&self) -> (len: usize)
        ensures
            len == self@.slots.len(),
    {
        self.data.len()
    }

    /// Whether `key` is the handle of a living entity.
    pub fn is_alive(&self, key: Key) -> (alive: bool)
        requires
            self.wf(),
        ensures
            alive == self@.is_alive(key),
    {
        let index: usize = key.index();
        if index >= self.data.len() {
            return false;
        }
        proof {
            Key::law_fields_determine_key(key);
            Key::law_fields_determine_key(self.data@[index as int]);
            assert(self@.slots[index as int] == self.slot(index as int));
        }
        if key.is_dead() || self.data[index] != key {
            return false;
        }
        proof {
            if self.free@.contains(index) {
                let k = choose|k: int| 0 <= k < self.free@.len() && self.free@[k] == index;
                assert(self.free@[k] == index);
                assert(k == self.free@.len() - 1);
            }
        }
        match self.list {
            Some((newest, _)) => newest != index,
            None => true,
        }
    }

    /// Returns a handle that is alive from now on and was not before:
    /// that of the oldest removed slot where there is one, else that of a
    /// new slot at version 0.
    pub fn generate(&mut self) -> (key: Key)
        requires
            old(self).wf(),
            old(self)@.can_generate(),
        ensures
            final(self).wf(),
            key == old(self)@.next_key(),
            final(self)@ == old(self)@.generate(),
    {
        match self.list {
            Some((newest, oldest)) => {
                let ghost free = self.free@;
                assert(free[0] == oldest);
                if newest == oldest {
                    self.list = None;
                    assert(free.len() == 1) by {
                        assert(free[0] == free[free.len() - 1]);
                    }
                } else {
                    let next: usize = self.data[oldest].index();
                    self.list = Some((newest, next));
                }
                let mut slot: Key = self.data[oldest];
                slot.set_index(oldest);
                self.data[oldest] = slot;
                proof {
                    self.free = Ghost(free.drop_first());
                    Key::law_fields_determine_key(slot);
                    let rest = free.drop_first();
                    assert forall|k: int| 0 <= k < rest.len() implies rest[k] == free[k + 1] by {}
                    lemma_drop_first_contains(free);
                    assert(self@.slots =~= old(self)@.generate().slots);
                }
                slot
            },
            None => {
                let key = Key::new(self.data.len());
                self.data.push(key);
                proof {
                    Key::law_fields_determine_key(key);
                    assert(self@.slots =~= old(self)@.generate().slots);
                }
                key
            },
        }
    }

    /// Deletes a handle: returns true if it was alive. The slot of a handle
    /// that was alive waits to be issued again with the next version, behind
    /// the slots removed before it; a slot with no next version is dead.
    pub fn delete_key(&mut self, key: Key) -> (alive: bool)
        requires
            old(self).wf(),
        ensures
            final(self).wf(),
            alive == old(self)@.is_alive(key),
            final(self)@ == old(self)@.delete(key),
    {
        if !self.is_alive(key) {
            return false;
        }
        let index: usize = key.index();
        let ghost free = self.free@;
        let mut slot: Key = self.data[index];
        match slot.bump_version() {
            Ok(()) => {
                self.data[index] = slot;
                match self.list {
                    Some((newest, oldest)) => {
                        let mut last: Key = self.data[newest];
                        last.set_index(index);
                        self.data[newest] = last;
                        self.list = Some((index, oldest));
                    },
                    None => {
                        self.list = Some((index, index));
                    },
                }
                proof {
                    self.free = Ghost(free.push(index));
                    lemma_push_contains(free, index);
                    assert(self@.slots =~= old(self)@.delete(key).slots);
                }
            },
            Err(()) => {
                slot.retire();
                self.data[index] = slot;
                proof {
                    assert(self@.slots =~= old(self)@.delete(key).slots);
                }
            },
        }
        true
    }

    /// The mathematical value of a well-formed allocator is well-formed,
    /// so the laws of `Pool` hold of it.
    pub proof fn lemma_view_wf(&self)
        requires
            self.wf(),
        ensures
            self@.wf(),
    {
        let pool = self@;
        assert forall|k: int| 0 <= k < pool.free.len() implies (#[trigger] pool.free[k])
            < pool.slots.len() && pool.slots[pool.free[k] as int] is Removed by {
            assert(self.free@.contains(self.free@[k]));
        }
        assert forall|i: int|
            0 <= i < pool.slots.len() && !((#[trigger] pool.slots[i]) is Dead)
            implies pool.slots[i].generation() < dead_version() by {
            Key::lemma_field_bounds(self.data@[i]);
            if self.free@.contains(i as usize) {
                let k = choose|k: int| 0 <= k < self.free@.len() && self.free@[k] == i as usize;
                assert(self.data@[self.free@[k] as int].version() < dead_version());
            }
        }
    }

    /// Whether a handle can still be issued.
    pub fn can_generate(&self) -> (can: bool)
        requires
            self.wf(),
        ensures
            can == self@.can_generate(),
    {
        self.list.is_some() || self.data.len() <= index_mask()
    }

    /// The newest and the oldest of the removed slots, in this order, or
    /// nothing where no slot waits to be issued again.
    pub fn list(&self) -> (ends: Option<(usize, usize)>)
        requires
            self.wf(),
        ensures
            match ends {
                Some((newest, oldest)) => self@.free.len() > 0 && oldest == self@.free[0]
                    && newest == self@.free.last(),
                None => self@.free.len() == 0,
            },
    {
        self.list
    }

    /// Moves a living entity on to a later version: `to` takes the place
    /// of `from`, which is stale from then on. This happens, and true is
    /// returned, where `from` is alive and `to` has its index and a
    /// version that is not below its own and is not the reserved one. Else
    /// nothing changes.
    pub fn advance(&mut self, from: Key, to: Key) -> (moved: bool)
        requires
            old(self).wf(),
        ensures
            final(self).wf(),
            moved <==> old(self)@.is_alive(from) && to.index() == from.index() && from.version()
                <= to.version() < dead_version(),
            moved ==> final(self)@ == (Pool {
                slots: old(self)@.slots.update(
                    from.index() as int,
                    Slot::Live { version: to.version() },
                ),
                free: old(self)@.free,
            }),
            !moved ==> final(self)@ == old(self)@,
    {
        if !self.is_alive(from) || to.index() != from.index() || to.version() < from.version()
            || to.is_dead() {
            return false;
        }
        let index: usize = from.index();
        proof {
            Key::lemma_field_bounds(to);
            assert(old(self)@.slots[index as int] == old(self).slot(index as int));
        }
        self.data[index] = to;
        proof {
            assert(self@.slots =~= old(self)@.slots.update(
                index as int,
                Slot::Live { version: to.version() },
            ));
        }
        true
    }

    /// Exclusive access to the entities.
    pub fn view_mut(&mut self) -> (view: EntityViewMut<'_>)
        ensures
            *view == *old(self),
            *final(self) == *final(view),
    {
        self
    }

    /// Deletes an entity and all its components. Returns true if the
    /// entity was alive: each storage is then purged of it as its own
    /// `delete` does, and every other handle keeps what it owns. For a
    /// handle that was not alive, the storages are not touched.
    pub fn delete<S: UnknownStorage>(&mut self, storages: &mut S, entity: Key) -> (alive: bool)
        requires
            old(self).wf(),
            old(storages).valid(),
        ensures
            final(self).wf(),
            final(storages).valid(),
            alive == old(self)@.is_alive(entity),
            final(self)@ == old(self)@.delete(entity),
            alive ==> old(storages).purged(entity, &*final(storages)),
            alive ==> !final(storages).holds(entity),
            alive ==> forall|other: Key|
                other != entity ==> old(storages).kept(other, &*final(storages)),
            alive ==> forall|other: Key|
                other != entity ==> final(storages).holds(other) == old(storages).holds(other),
            !alive ==> *final(storages) == *old(storages),
    {
        if self.delete_key(entity) {
            storages.delete(entity);
            true
        } else {
            false
        }
    }

    /// Deletes every entity that owns a component in `marks`, with that
    /// component and all its components in `storages`. Handles in `marks`
    /// that are not alive lose their component there and nothing else, and
    /// every handle that is not deleted keeps in `storages` what it owns.
    pub fn delete_any<T, S: UnknownStorage>(&mut self, marks: &mut SparseSet<T>, storages: &mut S)
        requires
            old(self).wf(),
            old(marks).wf(),
            old(storages).valid(),
        ensures
            final(self).wf(),
            final(marks).wf(),
            final(storages).valid(),
            final(marks)@.len() == 0,
            final(marks).spec_tracking() == old(marks).spec_tracking(),
            final(marks).spec_type_id() == old(marks).spec_type_id(),
            final(marks).spec_name() == old(marks).spec_name(),
            final(self)@ == old(self)@.run(deletions(old(marks)@)),
            forall|key: Key|
                old(marks).spec_contains(key) ==> !final(self)@.is_alive(key),
            forall|key: Key|
                old(marks).spec_contains(key) && old(self)@.is_alive(key) ==> !final(
                    storages).holds(key),
            forall|key: Key|
                !(old(marks).spec_contains(key) && old(self)@.is_alive(key)) ==> old(
                    storages).kept(key, &*final(storages)),
            forall|key: Key|
                !(old(marks).spec_contains(key) && old(self)@.is_alive(key)) ==> final(
                    storages).holds(key) == old(storages).holds(key),
    {
        let ghost entries = marks@;
        let ghost ops = deletions(entries);
        let ghost first = *storages;
        proof {
            marks.lemma_consistent();
            assert(ops.take(0) =~= Seq::<Op>::empty());
            assert forall|key: Key| first.kept(key, &first) by {
                first.lemma_kept(&first, &first, key);
            }
        }
        while !marks.is_empty()
            invariant
                self.wf(),
                marks.wf(),
                storages.valid(),
                entries == old(marks)@,
                ops == deletions(entries),
                old(marks).wf(),
                marks@.len() <= entries.len(),
                marks@ == entries.take(marks@.len() as int),
                marks.spec_tracking() == old(marks).spec_tracking(),
                marks.spec_type_id() == old(marks).spec_type_id(),
                marks.spec_name() == old(marks).spec_name(),
                self@ == old(self)@.run(ops.take(entries.len() - marks@.len())),
                forall|j: int|
                    0 <= j < marks@.len() ==> self@.is_alive((#[trigger] entries[j]).0) == old(
                        self)@.is_alive(entries[j].0),
                forall|j: int|
                    marks@.len() <= j < entries.len() ==> !self@.is_alive(
                        (#[trigger] entries[j]).0,
                    ),
                forall|j: int|
                    marks@.len() <= j < entries.len() && old(self)@.is_alive(
                        (#[trigger] entries[j]).0,
                    ) ==> !storages.holds(entries[j].0),
                first == *old(storages),
                forall|key: Key|
                    (forall|j: int|
                        marks@.len() <= j < entries.len() ==> (#[trigger] entries[j]).0 != key
                            || !old(self)@.is_alive(key)) ==> first.kept(key, &*storages),
            decreases marks@.len(),
        {
            let ghost before = *self;
            let ghost n = marks@.len() as int;
            let last: usize = marks.len() - 1;
            let key: Key = marks.key_at(last);
            proof {
                marks.lemma_consistent();
                old(marks).lemma_consistent();
                assert(marks@[last as int].0 == key);
                assert(entries[last as int].0 == key);
                assert(marks.spec_index_of(key) == Some(last));
            }
            let _ = marks.remove(key);
            let ghost held = *storages;
            let alive = self.delete(storages, key);
            proof {
                assert(marks@ =~= entries.take(n - 1));
                let done = ops.take(entries.len() - n);
                let more = ops.take(entries.len() - n + 1);
                assert(ops[entries.len() - n] == Op::Delete(key));
                assert(more =~= done.push(Op::Delete(key)));
                assert(more.drop_last() =~= done);
                assert(old(self)@.run(more) == old(self)@.run(done).apply(Op::Delete(key)));
                before.lemma_view_wf();
                before@.law_delete(key);
                assert forall|j: int| 0 <= j < n - 1 implies self@.is_alive(
                    (#[trigger] entries[j]).0,
                ) == old(self)@.is_alive(entries[j].0) by {
                    assert(old(marks).position(entries[j].0.index()) == Some(j as usize));
                    assert(entries[j].0.index() != key.index());
                }
                assert forall|j: int| n - 1 <= j < entries.len() implies !self@.is_alive(
                    (#[trigger] entries[j]).0,
                ) by {
                    if j >= n {
                        assert(!before@.is_alive(entries[j].0));
                        assert(old(marks).position(entries[j].0.index()) == Some(j as usize));
                        assert(entries[j].0.index() != key.index());
                    }
                }
                assert forall|j: int|
                    n - 1 <= j < entries.len() && old(self)@.is_alive(
                        (#[trigger] entries[j]).0,
                    ) implies !storages.holds(entries[j].0) by {
                    if j >= n {
                        assert(old(marks).position(entries[j].0.index()) == Some(j as usize));
                        assert(entries[j].0 != key);
                        assert(!held.holds(entries[j].0));
                    }
                }
                assert forall|other: Key|
                    (forall|j: int|
                        n - 1 <= j < entries.len() ==> (#[trigger] entries[j]).0 != other
                            || !old(self)@.is_alive(other)) implies first.kept(
                    other,
                    &*storages,
                ) by {
                    assert(entries[n - 1].0 != other || !old(self)@.is_alive(other));
                    assert forall|j: int| n <= j < entries.len() implies (#[trigger] entries[j]).0
                        != other || !old(self)@.is_alive(other) by {}
                    assert(first.kept(other, &held));
                    if alive {
                        assert(other != key);
                        assert(held.kept(other, &*storages));
                        first.lemma_kept(&held, &*storages, other);
                    }
                }
            }
        }
        proof {
            assert(ops.take(entries.len() as int) =~= ops);
            old(marks).lemma_consistent();
            assert forall|key: Key| old(marks).spec_contains(key) implies !self@.is_alive(key) by {
                let p = old(marks).spec_index_of(key)->0 as int;
                assert(entries[p].0 == key);
            }
            assert forall|key: Key|
                old(marks).spec_contains(key) && old(self)@.is_alive(key) implies !storages.holds(
                key,
            ) by {
                let p = old(marks).spec_index_of(key)->0 as int;
                assert(entries[p].0 == key);
            }
            assert forall|key: Key|
                !(old(marks).spec_contains(key) && old(self)@.is_alive(key)) implies first.kept(
                key,
                &*storages,
            ) && storages.holds(key) == first.holds(key) by {
                assert forall|j: int| 0 <= j < entries.len() implies (#[trigger] entries[j]).0
                    != key || !old(self)@.is_alive(key) by {
                    if entries[j].0 == key {
                        assert(old(marks).position(entries[j].0.index()) == Some(j as usize));
                        assert(old(marks).spec_index_of(key) == Some(j as usize));
                    }
                }
                first.lemma_kept(&*storages, &*storages, key);
            }
        }
    }
}

} // verus!
