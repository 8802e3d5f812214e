//! Component storage: a sparse array that finds, by the index of a handle, a
//! position in densely packed arrays of handles and of component values.

pub mod iter;

use vstd::prelude::*;
use crate::entity::key::Key;
use crate::error::MissingComponent;
use crate::sparse_set::iter::Iter;
use crate::type_id::TypeId;
use crate::mutation::Mut;

verus! {

/// What happened to a slot of a tracked storage since its flags were last
/// cleared.
#[derive(Clone, Copy, PartialEq, Eq, Structural, Debug)]
pub enum Flag {
    /// Nothing.
    Clean,
    /// The component was inserted.
    Inserted,
    /// The component was there before, and was overwritten or handed out
    /// for writing through tracked access.
    Modified,
}

impl Flag {
    /// The flag of a slot after its component was overwritten or handed out
    /// for writing: a clean slot of a tracked storage becomes modified; an
    /// inserted slot stays inserted, and an untracked storage sets no flag.
    pub open spec fn spec_touched(self, tracking: bool) -> Flag {
        if tracking && self == Flag::Clean {
            Flag::Modified
        } else {
            self
        }
    }

    /// The flag of a slot after its component was overwritten or handed out
    /// for writing.
    #[verifier::when_used_as_spec(spec_touched)]
    pub fn touched(self, tracking: bool) -> (flag: Flag)
        ensures
            flag == self.spec_touched(tracking),
    {
        if tracking && self == Flag::Clean {
            Flag::Modified
        } else {
            self
        }
    }

    /// Touching a slot twice leaves its flag as touching it once does: a
    /// slot is flagged as modified once, and an untracked storage, where
    /// `tracking` is false, never flags.
    pub proof fn law_touched_once(self, tracking: bool)
        ensures
            self.spec_touched(tracking).spec_touched(tracking) == self.spec_touched(tracking),
            !tracking ==> self.spec_touched(tracking) == self,
            tracking ==> self.spec_touched(tracking) != Flag::Clean,
    {
    }
}

/// Taking an entry away by moving the last one into its place leaves
/// exactly the other entries, each as often as before.
pub proof fn law_swap_remove_keeps_rest<A>(entries: Seq<A>, p: int)
    requires
        0 <= p < entries.len(),
    ensures
        entries.update(p, entries.last()).drop_last().to_multiset()
            == entries.to_multiset().remove(entries[p]),
{
    let n = entries.len() as int;
    let after = entries.update(p, entries.last()).drop_last();
    let without = entries.remove(p);
    vstd::seq_lib::to_multiset_remove(entries, p);
    if p == n - 1 {
        assert(after =~= without);
    } else {
        let rest = without.drop_last();
        assert(without =~= rest.push(entries.last()));
        vstd::seq_lib::to_multiset_build(rest, entries.last());
        assert(after.remove(p) =~= rest);
        vstd::seq_lib::to_multiset_remove(after, p);
        after.to_multiset_ensures();
        assert(after.contains(after[p]));
        assert(after.to_multiset().count(entries.last()) > 0);
        assert(after.to_multiset() =~= rest.to_multiset().insert(entries.last()));
    }
}

/// The components of one type, each owned by the handle it was inserted
/// with. At most one entry exists for an index.
pub struct SparseSet<T> {
    sparse: Vec<Option<usize>>,
    dense: Vec<Key>,
    data: Vec<T>,
    flags: Vec<Flag>,
    tracking: bool,
    type_id: TypeId,
    name: &'static str,
}

impl<T> View for SparseSet<T> {
    type V = Seq<(Key, T)>;

    /// The entries in the order in which they are stored and iterated:
    /// each a handle with the component it owns.
    closed spec fn view(&self) -> Seq<(Key, T)> {
        Seq::new(self.dense@.len(), |p: int| (self.dense@[p], self.data@[p]))
    }
}

impl<T> SparseSet<T> {
    /// The flag of each entry, in the order of the entries.
    pub closed spec fn flags(&self) -> Seq<Flag> {
        self.flags@
    }

    /// Whether the storage tracks insertions and modifications.
    pub closed spec fn spec_tracking(&self) -> bool {
        self.tracking
    }

    /// The identifier under which the storage reports a missing component:
    /// that of the type of its components, taken when the storage was made.
    pub closed spec fn spec_type_id(&self) -> TypeId {
        self.type_id
    }

    /// The name under which the storage reports a missing component: the
    /// one it was given when it was made, meant to be that of the type of
    /// its components.
    pub closed spec fn spec_name(&self) -> &'static str {
        self.name
    }

    /// The error for a handle that owns no component here: it names the
    /// handle, and the type and the name of this storage.
    pub open spec fn spec_missing(&self, key: Key) -> MissingComponent {
        MissingComponent { id: key, type_id: self.spec_type_id(), name: self.spec_name() }
    }

    /// The position that the sparse array gives for an index, if any.
    pub closed spec fn position(&self, index: usize) -> Option<usize> {
        if index < self.sparse@.len() {
            self.sparse@[index as int]
        } else {
            None
        }
    }

    /// The position of the entry that `key` owns, if it owns one: the
    /// sparse array finds a position for the key's index, and the entry
    /// there belongs to this very handle.
    pub open spec fn spec_index_of(&self, key: Key) -> Option<usize> {
        match self.position(key.index()) {
            Some(p) => if self@[p as int].0 == key {
                Some(p)
            } else {
                None
            },
            None => None,
        }
    }

    /// Whether `key` owns an entry.
    pub open spec fn spec_contains(&self, key: Key) -> bool {
        self.spec_index_of(key) is Some
    }

    /// The component that `key` owns, if it owns one.
    pub open spec fn spec_get(&self, key: Key) -> Option<T> {
        match self.spec_index_of(key) {
            Some(p) => Some(self@[p as int].1),
            None => None,
        }
    }

    /// The invariant of the storage: handles, values and flags are aligned;
    /// the sparse array holds the position of every entry under the index
    /// of its handle, and nothing else; an untracked storage has no flag
    /// set.
    pub closed spec fn wf(&self) -> bool {
        &&& self.dense@.len() == self.data@.len()
        &&& self.dense@.len() == self.flags@.len()
        &&& forall|p: int|
            0 <= p < self.dense@.len() ==> (#[trigger] self.dense@[p]).index() < self.sparse@.len()
                && self.sparse@[self.dense@[p].index() as int] == Some(p as usize)
        &&& forall|i: int|
            0 <= i < self.sparse@.len() ==> match #[trigger] self.sparse@[i] {
                Some(p) => p < self.dense@.len() && self.dense@[p as int].index() == i,
                None => true,
            }
        &&& !self.tracking ==> forall|p: int|
            0 <= p < self.flags@.len() ==> #[trigger] self.flags@[p] == Flag::Clean
    }

    /// The sparse array and the entries agree, both ways: the position
    /// found for the index of an entry's handle is that of the entry, and a
    /// position found for an index is that of an entry whose handle has
    /// this index. So no two entries share an index.
    pub proof fn lemma_consistent(&self)
        requires
            self.wf(),
        ensures
            self@.len() == self.flags().len(),
            self@.len() <= usize::MAX,
            forall|p: int|
                0 <= p < self@.len() ==> self.position((#[trigger] self@[p]).0.index()) == Some(
                    p as usize,
                ),
            forall|i: usize|
                (#[trigger] self.position(i)) is Some ==> self.position(i)->0 < self@.len()
                    && self@[self.position(i)->0 as int].0.index() == i,
            !self.spec_tracking() ==> forall|p: int|
                0 <= p < self@.len() ==> #[trigger] self.flags()[p] == Flag::Clean,
    {
        assert(self.dense@.len() == self.dense.len());
        assert forall|p: int| 0 <= p < self@.len() implies self.position(
            (#[trigger] self@[p]).0.index(),
        ) == Some(p as usize) by {
            assert(self@[p].0 == self.dense@[p]);
        }
        assert forall|i: usize| (#[trigger] self.position(i)) is Some implies self.position(i)->0
            < self@.len() && self@[self.position(i)->0 as int].0.index() == i by {
            assert(self.sparse@[i as int] is Some);
        }
    }

    /// Number of entries.
    pub fn len(&self) -> (len: usize)
        requires
            self.wf(),
        ensures
            len == self@.len(),
    {
        self.dense.len()
    }

    /// Whether the storage has no entry.
    pub fn is_empty(&self) -> (empty: bool)
        requires
            self.wf(),
        ensures
            empty <==> self@.len() == 0,
    {
        self.dense.len() == 0
    }

    /// The position of the entry that `key` owns, if it owns one.
    #[verifier::when_used_as_spec(spec_index_of)]
    pub fn index_of(&self, key: Key) -> (found: Option<usize>)
        requires
            self.wf(),
        ensures
            found == self.spec_index_of(key),
            found matches Some(p) ==> p < self@.len(),
    {
        let index: usize = key.index();
        if index >= self.sparse.len() {
            return None;
        }
        match self.sparse[index] {
            Some(p) => if self.dense[p] == key {
                Some(p)
            } else {
                None
            },
            None => None,
        }
    }

    /// Whether `key` owns an entry.
    #[verifier::when_used_as_spec(spec_contains)]
    pub fn contains(&self, key: Key) -> (found: bool)
        requires
            self.wf(),
        ensures
            found == self.spec_contains(key),
    {
        self.index_of(key).is_some()
    }

    /// The component that `key` owns, if it owns one. A handle that owns
    /// nothing here may still be alive.
    pub fn get(&self, key: Key) -> (found: Option<&T>)
        requires
            self.wf(),
        ensures
            match self.spec_index_of(key) {
                Some(p) => found == Some(&self@[p as int].1),
                None => found is None,
            },
    {
        match self.index_of(key) {
            Some(p) => Some(&self.data[p]),
            None => None,
        }
    }

    /// The component that `key` owns, for writing, if it owns one. No flag
    /// is set.
    pub fn get_mut(&mut self, key: Key) -> (found: Option<&mut T>)
        requires
            old(self).wf(),
        ensures
            final(self).wf(),
            final(self).flags() == old(self).flags(),
            final(self).spec_tracking() == old(self).spec_tracking(),
            final(self).spec_type_id() == old(self).spec_type_id(),
            final(self).spec_name() == old(self).spec_name(),
            forall|i: usize| final(self).position(i) == old(self).position(i),
            match old(self).spec_index_of(key) {
                Some(p) => found matches Some(value) && *value == old(self)@[p as int].1
                    && final(self)@ == old(self)@.update(p as int, (key, *final(value))),
                None => found is None && final(self)@ == old(self)@,
            },
    {
        match self.index_of(key) {
            Some(p) => {
                Some(&mut self.data[p])
            },
            None => None,
        }
    }

    /// Gives `key` the component `value`. Where the storage has an entry
    /// for the key's index, the value replaces the one there and the entry
    /// keeps its handle; the slot counts as touched. Else a new entry is
    /// added behind the others, flagged as inserted if the storage tracks.
    pub fn insert(&mut self, key: Key, value: T)
        requires
            old(self).wf(),
        ensures
            final(self).wf(),
            final(self).spec_tracking() == old(self).spec_tracking(),
            final(self).spec_type_id() == old(self).spec_type_id(),
            final(self).spec_name() == old(self).spec_name(),
            forall|other: Key|
                other.index() != key.index() ==> final(self).spec_get(other) == old(self).spec_get(
                    other,
                ),
            match old(self).position(key.index()) {
                Some(p) => final(self).spec_get(old(self)@[p as int].0) == Some(value) && final(
                    self)@ == old(self)@.update(p as int, (old(self)@[p as int].0, value)) && final(
                    self).flags() == old(self).flags().update(
                    p as int,
                    old(self).flags()[p as int].touched(old(self).spec_tracking()),
                ),
                None => final(self).spec_get(key) == Some(value) && final(self)@ == old(
                    self)@.push((key, value)) && final(self).flags() == old(self).flags().push(
                    if old(self).spec_tracking() {
                        Flag::Inserted
                    } else {
                        Flag::Clean
                    },
                ),
            },
    {
        let index: usize = key.index();
        proof {
            Key::lemma_field_bounds(key);
        }
        while self.sparse.len() <= index
            invariant
                self.wf(),
                self.dense@ == old(self).dense@,
                self.data@ == old(self).data@,
                self.flags@ == old(self).flags@,
                self.tracking == old(self).tracking,
                self.type_id == old(self).type_id,
                self.name == old(self).name,
                self.sparse@.len() >= old(self).sparse@.len(),
                forall|i: int|
                    0 <= i < old(self).sparse@.len() ==> self.sparse@[i] == old(self).sparse@[i],
                forall|i: int|
                    old(self).sparse@.len() <= i < self.sparse@.len() ==> self.sparse@[i] is None,
            decreases index + 1 - self.sparse@.len(),
        {
            self.sparse.push(None);
        }
        match self.sparse[index] {
            Some(p) => {
                self.data[p] = value;
                self.flags[p] = self.flags[p].touched(self.tracking);
                proof {
                    assert(self@ =~= old(self)@.update(
                        p as int,
                        (old(self)@[p as int].0, value),
                    ));
                }
            },
            None => {
                self.sparse[index] = Some(self.dense.len());
                self.dense.push(key);
                self.data.push(value);
                self.flags.push(
                    if self.tracking {
                        Flag::Inserted
                    } else {
                        Flag::Clean
                    },
                );
                proof {
                    assert(self@ =~= old(self)@.push((key, value)));
                }
            },
        }
    }

    /// Takes away the component that `key` owns and returns it; nothing
    /// happens where it owns none. The last entry moves to the place of
    /// the one removed, so the entries stay packed and the order of the
    /// others among themselves is kept but for that one move.
    pub fn remove(&mut self, key: Key) -> (removed: Option<T>)
        requires
            old(self).wf(),
        ensures
            final(self).wf(),
            final(self).spec_tracking() == old(self).spec_tracking(),
            final(self).spec_type_id() == old(self).spec_type_id(),
            final(self).spec_name() == old(self).spec_name(),
            removed == old(self).spec_get(key),
            final(self).spec_get(key) is None,
            forall|other: Key|
                other != key ==> final(self).spec_get(other) == old(self).spec_get(other),
            match old(self).spec_index_of(key) {
                Some(p) => final(self)@ == old(self)@.update(
                    p as int,
                    old(self)@.last(),
                ).drop_last() && final(self).flags() == old(self).flags().update(
                    p as int,
                    old(self).flags().last(),
                ).drop_last(),
                None => final(self)@ == old(self)@ && final(self).flags() == old(self).flags(),
            },
    {
        match self.index_of(key) {
            Some(p) => {
                let last: usize = self.dense.len() - 1;
                let moved: Key = self.dense[last];
                self.sparse[moved.index()] = Some(p);
                self.sparse[key.index()] = None;
                self.dense.swap_remove(p);
                self.flags.swap_remove(p);
                let value = self.data.swap_remove(p);
                proof {
                    assert(self@ =~= old(self)@.update(
                        p as int,
                        old(self)@.last(),
                    ).drop_last());
                    assert forall|other: Key| other != key implies self.spec_get(other)
                        == old(self).spec_get(other) by {
                        if old(self).spec_contains(other) {
                            let q = old(self).spec_index_of(other)->0 as int;
                            assert(old(self).dense@[q] == other);
                            if q == last {
                                assert(self.dense@[p as int] == other);
                            } else {
                                assert(self.dense@[q] == other);
                            }
                        }
                        if self.spec_contains(other) {
                            let q = self.spec_index_of(other)->0 as int;
                            assert(self.dense@[q] == other);
                        }
                    }
                }
                Some(value)
            },
            None => None,
        }
    }

    /// The identifier under which the storage reports a missing component.
    #[verifier::when_used_as_spec(spec_type_id)]
    pub fn type_id(&self) -> (type_id: TypeId)
        ensures
            type_id == self.spec_type_id(),
    {
        self.type_id
    }

    /// The error for a handle that owns no component here.
    #[verifier::when_used_as_spec(spec_missing)]
    pub fn missing(&self, key: Key) -> (error: MissingComponent)
        ensures
            error == self.spec_missing(key),
    {
        MissingComponent { id: key, type_id: self.type_id, name: self.name }
    }

    /// The name under which the storage reports a missing component.
    #[verifier::when_used_as_spec(spec_name)]
    pub fn name(&self) -> (name: &'static str)
        ensures
            name == self.spec_name(),
    {
        self.name
    }

    /// Whether the storage tracks insertions and modifications.
    #[verifier::when_used_as_spec(spec_tracking)]
    pub fn is_tracking_modification(&self) -> (tracking: bool)
        ensures
            tracking == self.spec_tracking(),
    {
        self.tracking
    }

    /// Makes the storage track insertions and modifications from now on.
    /// The entries and their flags stay as they are.
    pub fn track_modification(&mut self)
        requires
            old(self).wf(),
        ensures
            final(self).wf(),
            final(self).spec_tracking(),
            final(self).spec_type_id() == old(self).spec_type_id(),
            final(self).spec_name() == old(self).spec_name(),
            final(self)@ == old(self)@,
            final(self).flags() == old(self).flags(),
            forall|i: usize| final(self).position(i) == old(self).position(i),
    {
        self.tracking = true;
    }

    /// The flag of the entry that `key` owns, if it owns one.
    pub fn flag_of(&self, key: Key) -> (flag: Option<Flag>)
        requires
            self.wf(),
        ensures
            match self.spec_index_of(key) {
                Some(p) => flag == Some(self.flags()[p as int]),
                None => flag is None,
            },
    {
        match self.index_of(key) {
            Some(p) => Some(self.flags[p]),
            None => None,
        }
    }

    /// Starts a new epoch of tracking: every flag is clean afterwards. The
    /// entries stay as they are.
    pub fn clear_flags(&mut self)
        requires
            old(self).wf(),
        ensures
            final(self).wf(),
            final(self).spec_tracking() == old(self).spec_tracking(),
            final(self).spec_type_id() == old(self).spec_type_id(),
            final(self).spec_name() == old(self).spec_name(),
            final(self)@ == old(self)@,
            final(self).flags() == Seq::new(old(self)@.len(), |p: int| Flag::Clean),
            forall|i: usize| final(self).position(i) == old(self).position(i),
    {
        let mut p: usize = 0;
        while p < self.flags.len()
            invariant
                self.wf(),
                self.sparse@ == old(self).sparse@,
                self.dense@ == old(self).dense@,
                self.data@ == old(self).data@,
                self.tracking == old(self).tracking,
                self.type_id == old(self).type_id,
                self.name == old(self).name,
                p <= self.flags@.len(),
                forall|q: int| 0 <= q < p ==> self.flags@[q] == Flag::Clean,
            decreases self.flags@.len() - p,
        {
            self.flags[p] = Flag::Clean;
            p = p + 1;
        }
        proof {
            assert(self.flags@ =~= Seq::new(old(self)@.len(), |p: int| Flag::Clean));
        }
    }

    /// The component that `key` owns, for tracked writing, if it owns one:
    /// the component comes with the flag of its slot where the storage
    /// tracks and the flag is still clean, so that the first write sets it.
    /// Nothing is flagged by the access itself.
    pub fn get_tracked(&mut self, key: Key) -> (found: Option<Mut<'_, T>>)
        requires
            old(self).wf(),
        ensures
            final(self).wf(),
            final(self).spec_tracking() == old(self).spec_tracking(),
            final(self).spec_type_id() == old(self).spec_type_id(),
            final(self).spec_name() == old(self).spec_name(),
            forall|i: usize| final(self).position(i) == old(self).position(i),
            match old(self).spec_index_of(key) {
                Some(p) => {
                    &&& found matches Some(access)
                    &&& *access.data == old(self)@[p as int].1
                    &&& final(self)@ == old(self)@.update(p as int, (key, *final(access.data)))
                    &&& access.flag is Some <==> old(self).spec_tracking() && old(
                        self).flags()[p as int] == Flag::Clean
                    &&& match access.flag {
                        Some(flag) => *flag == Flag::Clean && final(self).flags() == old(
                            self).flags().update(p as int, *final(flag)),
                        None => final(self).flags() == old(self).flags(),
                    }
                },
                None => found is None && final(self)@ == old(self)@ && final(self).flags()
                    == old(self).flags(),
            },
    {
        match self.index_of(key) {
            Some(p) => {
                let flag = if self.tracking && self.flags[p] == Flag::Clean {
                    Some(&mut self.flags[p])
                } else {
                    None
                };
                Some(Mut { flag, data: &mut self.data[p] })
            },
            None => None,
        }
    }

    /// The handle of the entry at position `p`.
    pub fn key_at(&self, p: usize) -> (key: Key)
        requires
            self.wf(),
            p < self@.len(),
        ensures
            key == self@[p as int].0,
    {
        self.dense[p]
    }

    /// The component of the entry at position `p`.
    pub fn value_at(&self, p: usize) -> (value: &T)
        requires
            self.wf(),
            p < self@.len(),
        ensures
            *value == self@[p as int].1,
    {
        &self.data[p]
    }

    /// Goes through the components in the order of the entries, from the
    /// first one. Each call starts anew.
    pub fn iter(&self) -> (iter: Iter<'_, T>)
        requires
            self.wf(),
        ensures
            iter.wf(),
            iter.set() == self,
            iter.position() == 0,
    {
        Iter::new(self)
    }
}

impl<T: 'static> SparseSet<T> {
    /// An empty storage that tracks nothing and has no name.
    pub fn new() -> (set: SparseSet<T>)
        ensures
            set.wf(),
            set@.len() == 0,
            !set.spec_tracking(),
            set.spec_name() == "",
            exists|native: core::any::TypeId|
                set.spec_type_id() == TypeId::spec_from_native(native),
    {
        SparseSet::named("")
    }

    /// An empty storage that tracks nothing, with the name under which it
    /// reports a missing component.
    pub fn named(name: &'static str) -> (set: SparseSet<T>)
        ensures
            set.wf(),
            set@.len() == 0,
            !set.spec_tracking(),
            set.spec_name() == name,
            exists|native: core::any::TypeId|
                set.spec_type_id() == TypeId::spec_from_native(native),
    {
        SparseSet {
            sparse: Vec::new(),
            dense: Vec::new(),
            data: Vec::new(),
            flags: Vec::new(),
            tracking: false,
            type_id: TypeId::of::<T>(),
            name,
        }
    }
}

} // verus!
