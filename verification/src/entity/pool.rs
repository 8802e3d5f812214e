//! The allocator as a mathematical value, and the laws that hold of it.

use vstd::prelude::*;
use crate::entity::key::Key;
use crate::entity::key::dead_version;
use crate::entity::key::index_span;

verus! {

/// What waits after the first of the waiting slots was taken: all that
/// waited but that first one.
pub proof fn lemma_drop_first_contains(free: Seq<usize>)
    requires
        free.len() > 0,
        free.no_duplicates(),
    ensures
        forall|i: usize| free.drop_first().contains(i) <==> free.contains(i) && i != free[0],
{
    let rest = free.drop_first();
    assert forall|i: usize| rest.contains(i) <==> free.contains(i) && i != free[0] by {
        if rest.contains(i) {
            let k = choose|k: int| 0 <= k < rest.len() && rest[k] == i;
            assert(free[k + 1] == i);
        }
        if free.contains(i) && i != free[0] {
            let k = choose|k: int| 0 <= k < free.len() && free[k] == i;
            assert(rest[k - 1] == i);
        }
    }
}

/// What waits after a slot was put behind the waiting ones: all that
/// waited, and that slot.
pub proof fn lemma_push_contains(free: Seq<usize>, index: usize)
    ensures
        forall|i: usize| free.push(index).contains(i) <==> free.contains(i) || i == index,
{
    let more = free.push(index);
    assert forall|i: usize| more.contains(i) <==> free.contains(i) || i == index by {
        if free.contains(i) {
            let k = choose|k: int| 0 <= k < free.len() && free[k] == i;
            assert(more[k] == i);
        }
        if i == index {
            assert(more[free.len() as int] == i);
        }
    }
}

/// What a slot of the allocator is at a given moment.
pub enum Slot {
    /// A living entity holds the slot; its handle carries this version.
    Live { version: usize },
    /// The entity was deleted and the slot waits to be issued again, with
    /// this version.
    Removed { version: usize },
    /// The slot ran out of versions and is never issued again.
    Dead,
}

impl Slot {
    /// The generation of the slot: the version that its handle carries or
    /// will carry next; for a dead slot, the reserved version.
    pub open spec fn generation(self) -> int {
        match self {
            Slot::Live { version } => version as int,
            Slot::Removed { version } => version as int,
            Slot::Dead => dead_version(),
        }
    }
}

/// One operation on the allocator.
pub enum Op {
    Generate,
    Delete(Key),
}

/// The allocator as a mathematical value: the state of each slot, by index,
/// and the removed slots in the order in which they will be issued again.
pub struct Pool {
    pub slots: Seq<Slot>,
    pub free: Seq<usize>,
}

impl Pool {
    /// What holds of every allocator: the removed slots are exactly those
    /// that wait, each once; versions of living and waiting slots are below
    /// the reserved one; the indices fit a handle.
    pub open spec fn wf(self) -> bool {
        &&& self.slots.len() <= index_span()
        &&& self.free.no_duplicates()
        &&& forall|k: int|
            0 <= k < self.free.len() ==> (#[trigger] self.free[k]) < self.slots.len()
                && self.slots[self.free[k] as int] is Removed
        &&& forall|i: int|
            0 <= i < self.slots.len() && (#[trigger] self.slots[i]) is Removed
                ==> self.free.contains(i as usize)
        &&& forall|i: int|
            0 <= i < self.slots.len() && !((#[trigger] self.slots[i]) is Dead)
                ==> self.slots[i].generation() < dead_version()
    }

    /// A handle is alive when its slot is held by a living entity at the
    /// handle's own version.
    pub open spec fn is_alive(self, key: Key) -> bool {
        &&& key.index() < self.slots.len()
        &&& self.slots[key.index() as int] == Slot::Live { version: key.version() }
    }

    /// The generation of the slot at `index`.
    pub open spec fn generation(self, index: int) -> int {
        self.slots[index].generation()
    }

    /// Whether a handle can still be issued: a removed slot waits, or the
    /// index space has room for one more slot.
    pub open spec fn can_generate(self) -> bool {
        self.free.len() > 0 || self.slots.len() < index_span()
    }

    /// The handle that the next `generate` issues: the oldest removed slot
    /// at the version it waits with, or else a new slot at version 0.
    pub open spec fn next_key(self) -> Key {
        if self.free.len() > 0 {
            Key::spec_pack(self.free[0], self.slots[self.free[0] as int]->Removed_version)
        } else {
            Key::spec_pack(self.slots.len() as usize, 0)
        }
    }

    /// The allocator after issuing `next_key`.
    pub open spec fn generate(self) -> Pool {
        if self.free.len() > 0 {
            let index = self.free[0] as int;
            Pool {
                slots: self.slots.update(
                    index,
                    Slot::Live { version: self.slots[index]->Removed_version },
                ),
                free: self.free.drop_first(),
            }
        } else {
            Pool { slots: self.slots.push(Slot::Live { version: 0 }), free: self.free }
        }
    }

    /// The allocator after `delete_key(key)`: unchanged for a handle that is
    /// not alive; else the slot goes to the back of the removed slots with
    /// the next version, or dies where there is no next version.
    pub open spec fn delete(self, key: Key) -> Pool {
        if !self.is_alive(key) {
            self
        } else if key.version() + 1 < dead_version() {
            Pool {
                slots: self.slots.update(
                    key.index() as int,
                    Slot::Removed { version: (key.version() + 1) as usize },
                ),
                free: self.free.push(key.index()),
            }
        } else {
            Pool { slots: self.slots.update(key.index() as int, Slot::Dead), free: self.free }
        }
    }

    /// The allocator after one operation. Generating where no handle can be
    /// issued is no operation of the allocator, and changes nothing here.
    pub open spec fn apply(self, op: Op) -> Pool {
        match op {
            Op::Generate => if self.can_generate() {
                self.generate()
            } else {
                self
            },
            Op::Delete(key) => self.delete(key),
        }
    }

    /// The allocator after a sequence of operations, first to last.
    pub open spec fn run(self, ops: Seq<Op>) -> Pool
        decreases ops.len(),
    {
        if ops.len() == 0 {
            self
        } else {
            self.run(ops.drop_last()).apply(ops.last())
        }
    }

    /// The allocator after `n` rounds of deleting the entity that lives at
    /// `index` and generating a handle again.
    pub open spec fn cycles(self, index: usize, n: nat) -> Pool
        decreases n,
    {
        if n == 0 {
            self
        } else {
            let before = self.cycles(index, (n - 1) as nat);
            before.delete(
                Key::spec_pack(index, before.slots[index as int]->Live_version),
            ).generate()
        }
    }

    /// Issuing a handle keeps the allocator well-formed; the handle was not
    /// alive before and is alive after.
    pub proof fn law_generate(self)
        requires
            self.wf(),
            self.can_generate(),
        ensures
            self.generate().wf(),
            !self.is_alive(self.next_key()),
            self.generate().is_alive(self.next_key()),
    {
        let key = self.next_key();
        let after = self.generate();
        if self.free.len() > 0 {
            let index = self.free[0];
            let rest = self.free.drop_first();
            assert(self.slots[index as int] is Removed);
            Key::law_round_trip(index, self.slots[index as int]->Removed_version);
            lemma_drop_first_contains(self.free);
            assert forall|k: int| 0 <= k < rest.len() implies (#[trigger] rest[k])
                < after.slots.len() && after.slots[rest[k] as int] is Removed by {
                assert(rest[k] == self.free[k + 1]);
            }
            assert forall|i: int|
                0 <= i < after.slots.len() && (#[trigger] after.slots[i]) is Removed
                implies rest.contains(i as usize) by {
                assert(self.slots[i] is Removed);
            }
            assert forall|i: int|
                0 <= i < after.slots.len() && !((#[trigger] after.slots[i]) is Dead)
                implies after.slots[i].generation() < dead_version() by {
                assert(!(self.slots[i] is Dead));
            }
        } else {
            Key::law_round_trip(self.slots.len() as usize, 0);
            assert forall|i: int|
                0 <= i < after.slots.len() && (#[trigger] after.slots[i]) is Removed
                implies after.free.contains(i as usize) by {
                assert(self.slots[i] is Removed);
            }
            assert forall|i: int|
                0 <= i < after.slots.len() && !((#[trigger] after.slots[i]) is Dead)
                implies after.slots[i].generation() < dead_version() by {
                if i < self.slots.len() {
                    assert(!(self.slots[i] is Dead));
                }
            }
        }
    }

    /// Deleting keeps the allocator well-formed, and the deleted handle is
    /// not alive after.
    pub proof fn law_delete(self, key: Key)
        requires
            self.wf(),
        ensures
            self.delete(key).wf(),
            !self.delete(key).is_alive(key),
    {
        let after = self.delete(key);
        if self.is_alive(key) {
            let index = key.index();
            if key.version() + 1 < dead_version() {
                let more = self.free.push(index);
                lemma_push_contains(self.free, index);
                assert(!self.free.contains(index)) by {
                    if self.free.contains(index) {
                        let k = choose|k: int| 0 <= k < self.free.len() && self.free[k] == index;
                        assert(self.slots[self.free[k] as int] is Removed);
                    }
                }
                assert forall|k: int| 0 <= k < more.len() implies (#[trigger] more[k])
                    < after.slots.len() && after.slots[more[k] as int] is Removed by {
                    if k < self.free.len() {
                        assert(more[k] == self.free[k]);
                    }
                }
                assert forall|i: int|
                    0 <= i < after.slots.len() && (#[trigger] after.slots[i]) is Removed
                    implies more.contains(i as usize) by {
                    if i != index {
                        assert(self.slots[i] is Removed);
                    }
                }
            } else {
                assert forall|i: int|
                    0 <= i < after.slots.len() && (#[trigger] after.slots[i]) is Removed
                    implies after.free.contains(i as usize) by {
                    assert(self.slots[i] is Removed);
                }
            }
            assert forall|i: int|
                0 <= i < after.slots.len() && !((#[trigger] after.slots[i]) is Dead)
                implies after.slots[i].generation() < dead_version() by {
                if i != index {
                    assert(!(self.slots[i] is Dead));
                }
            }
        }
    }

    /// At most one handle is alive for an index.
    pub proof fn law_one_alive_per_index(self, a: Key, b: Key)
        requires
            self.is_alive(a),
            self.is_alive(b),
            a.index() == b.index(),
        ensures
            a == b,
    {
        Key::law_fields_determine_key(a);
        Key::law_fields_determine_key(b);
    }

    /// No operation removes a slot or lowers its generation, and every
    /// operation keeps the allocator well-formed.
    pub proof fn law_generation_monotonic(self, op: Op, index: int)
        requires
            self.wf(),
            0 <= index < self.slots.len(),
        ensures
            self.apply(op).wf(),
            self.apply(op).slots.len() >= self.slots.len(),
            self.apply(op).generation(index) >= self.generation(index),
    {
        match op {
            Op::Generate => {
                if self.can_generate() {
                    self.law_generate();
                    if self.free.len() > 0 {
                        assert(self.slots[self.free[0] as int] is Removed);
                    }
                }
            },
            Op::Delete(key) => {
                self.law_delete(key);
                if self.is_alive(key) {
                    assert(!(self.slots[key.index() as int] is Dead));
                }
            },
        }
    }

    /// The same, of any sequence of operations.
    pub proof fn law_run_monotonic(self, ops: Seq<Op>, index: int)
        requires
            self.wf(),
            0 <= index < self.slots.len(),
        ensures
            self.run(ops).wf(),
            self.run(ops).slots.len() >= self.slots.len(),
            self.run(ops).generation(index) >= self.generation(index),
        decreases ops.len(),
    {
        if ops.len() > 0 {
            self.law_run_monotonic(ops.drop_last(), index);
            self.run(ops.drop_last()).law_generation_monotonic(ops.last(), index);
        }
    }

    /// A handle that was deleted is never alive again, whatever is done to
    /// the allocator afterwards: the handles later issued for its index
    /// carry later versions.
    pub proof fn law_deleted_never_alive(self, key: Key, ops: Seq<Op>)
        requires
            self.wf(),
            self.is_alive(key),
        ensures
            !self.delete(key).run(ops).is_alive(key),
    {
        let index = key.index() as int;
        let after = self.delete(key);
        self.law_delete(key);
        assert(!(self.slots[index] is Dead));
        assert(after.generation(index) > key.version());
        after.law_run_monotonic(ops, index);
    }

    /// After `n` rounds of deleting the entity at `index` and generating
    /// again, with no other slot waiting, the entity at `index` is alive at
    /// a version `n` above the one it started from: at version `n` for a slot
    /// that was new. This holds as long as that version is below the
    /// reserved one.
    pub proof fn law_cycles(self, index: usize, n: nat)
        requires
            self.wf(),
            self.free.len() == 0,
            index < self.slots.len(),
            self.slots[index as int] is Live,
            self.slots[index as int]->Live_version + n < dead_version(),
        ensures
            self.cycles(index, n).wf(),
            self.cycles(index, n).free.len() == 0,
            self.cycles(index, n).slots.len() == self.slots.len(),
            self.cycles(index, n).slots[index as int] == (Slot::Live {
                version: (self.slots[index as int]->Live_version + n) as usize,
            }),
        decreases n,
    {
        if n > 0 {
            let before = self.cycles(index, (n - 1) as nat);
            self.law_cycles(index, (n - 1) as nat);
            let version = before.slots[index as int]->Live_version;
            let key = Key::spec_pack(index, version);
            Key::law_round_trip(index, version);
            assert(before.is_alive(key));
            before.law_delete(key);
            let removed = before.delete(key);
            assert(removed.free =~= seq![index]);
            removed.law_generate();
            assert(removed.generate().free =~= Seq::<usize>::empty());
        }
    }

    /// Slots are issued again in the order in which they were removed: with
    /// no slot waiting, after deleting `a` and then `b`, the next handle is
    /// that of `a` at its next version, and the one after is that of `b` at
    /// its next version.
    pub proof fn law_fifo(self, a: Key, b: Key)
        requires
            self.wf(),
            self.free.len() == 0,
            self.is_alive(a),
            self.is_alive(b),
            a.index() != b.index(),
            a.version() + 1 < dead_version(),
            b.version() + 1 < dead_version(),
        ensures
            self.delete(a).delete(b).next_key() == Key::spec_pack(
                a.index(),
                (a.version() + 1) as usize,
            ),
            self.delete(a).delete(b).generate().next_key() == Key::spec_pack(
                b.index(),
                (b.version() + 1) as usize,
            ),
    {
        let first = self.delete(a);
        assert(first.is_alive(b));
        let second = first.delete(b);
        assert(second.free =~= seq![a.index(), b.index()]);
        assert(second.generate().free =~= seq![b.index()]);
    }
}

} // verus!
