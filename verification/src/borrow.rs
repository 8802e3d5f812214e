//! Who may use a storage at the same time: the count of borrows that are
//! out, kept at run time, and the rule for units of work that declare
//! beforehand what they borrow.

use vstd::prelude::*;
use crate::error::Borrow;
use crate::type_id::TypeId;

verus! {

/// How a storage is borrowed.
#[derive(Clone, Copy, PartialEq, Eq, Structural, Debug)]
pub enum Mutability {
    /// For reading, beside any number of other readers.
    Shared,
    /// For writing, beside nobody.
    Exclusive,
}

/// One borrow that a unit of work declares: of which storage, and how.
#[derive(Clone, Copy, PartialEq, Eq, Structural, Debug)]
pub struct TypeInfo {
    /// The storage, by the type of its components.
    pub storage: TypeId,
    /// Whether the unit reads or writes it.
    pub mutability: Mutability,
}

impl TypeInfo {
    /// Two declared borrows clash when they are of the same storage and
    /// one of them, or both, is exclusive.
    pub open spec fn spec_clashes(self, other: TypeInfo) -> bool {
        self.storage == other.storage && (self.mutability == Mutability::Exclusive
            || other.mutability == Mutability::Exclusive)
    }

    /// Whether the two declared borrows clash.
    #[verifier::when_used_as_spec(spec_clashes)]
    pub fn clashes(self, other: TypeInfo) -> (clash: bool)
        ensures
            clash == self.spec_clashes(other),
    {
        self.storage == other.storage && (self.mutability == Mutability::Exclusive
            || other.mutability == Mutability::Exclusive)
    }
}

/// Two units of work conflict when a borrow of the one clashes with a
/// borrow of the other.
pub open spec fn spec_conflict(a: Seq<TypeInfo>, b: Seq<TypeInfo>) -> bool {
    exists|i: int, j: int|
        0 <= i < a.len() && 0 <= j < b.len() && (#[trigger] a[i]).spec_clashes(#[trigger] b[j])
}

/// Whether two units of work, given by the borrows they declare, conflict.
/// They can run at the same time if and only if they do not.
pub fn conflict(a: &Vec<TypeInfo>, b: &Vec<TypeInfo>) -> (found: bool)
    ensures
        found == spec_conflict(a@, b@),
{
    let mut i: usize = 0;
    while i < a.len()
        invariant
            i <= a@.len(),
            forall|x: int, y: int|
                0 <= x < i && 0 <= y < b@.len() ==> !(#[trigger] a@[x]).spec_clashes(
                    #[trigger] b@[y],
                ),
        decreases a@.len() - i,
    {
        let mut j: usize = 0;
        while j < b.len()
            invariant
                i < a@.len(),
                j <= b@.len(),
                forall|x: int, y: int|
                    0 <= x < i && 0 <= y < b@.len() ==> !(#[trigger] a@[x]).spec_clashes(
                        #[trigger] b@[y],
                    ),
                forall|y: int| 0 <= y < j ==> !a@[i as int].spec_clashes(#[trigger] b@[y]),
            decreases b@.len() - j,
        {
            if a[i].clashes(b[j]) {
                return true;
            }
            j = j + 1;
        }
        i = i + 1;
    }
    false
}

/// It does not matter which of two units of work is asked about first.
pub proof fn law_conflict_symmetric(a: Seq<TypeInfo>, b: Seq<TypeInfo>)
    ensures
        spec_conflict(a, b) == spec_conflict(b, a),
{
    if spec_conflict(a, b) {
        let (i, j) = choose|i: int, j: int|
            0 <= i < a.len() && 0 <= j < b.len() && (#[trigger] a[i]).spec_clashes(
                #[trigger] b[j],
            );
        assert(b[j].spec_clashes(a[i]));
    }
    if spec_conflict(b, a) {
        let (j, i) = choose|j: int, i: int|
            0 <= j < b.len() && 0 <= i < a.len() && (#[trigger] b[j]).spec_clashes(
                #[trigger] a[i],
            );
        assert(a[i].spec_clashes(b[j]));
    }
}

/// Units of work that only read never conflict.
pub proof fn law_readers_never_conflict(a: Seq<TypeInfo>, b: Seq<TypeInfo>)
    requires
        forall|i: int| 0 <= i < a.len() ==> (#[trigger] a[i]).mutability == Mutability::Shared,
        forall|j: int| 0 <= j < b.len() ==> (#[trigger] b[j]).mutability == Mutability::Shared,
    ensures
        !spec_conflict(a, b),
{
}

/// The borrows of one storage that are out, as a mathematical value.
pub struct Claims {
    /// Number of shared borrows that are out.
    pub readers: nat,
    /// Whether the exclusive borrow is out.
    pub writer: bool,
}

impl Claims {
    /// A shared borrow can be granted: no exclusive borrow is out.
    pub open spec fn grants_shared(self) -> bool {
        !self.writer
    }

    /// An exclusive borrow can be granted: no borrow is out.
    pub open spec fn grants_exclusive(self) -> bool {
        !self.writer && self.readers == 0
    }

    /// The claims with one more shared borrow out.
    pub open spec fn share(self) -> Claims {
        Claims { readers: self.readers + 1, writer: self.writer }
    }

    /// The claims with the exclusive borrow out.
    pub open spec fn claim(self) -> Claims {
        Claims { readers: self.readers, writer: true }
    }

    /// While an exclusive borrow is out, no other borrow is granted,
    /// exclusive or shared.
    pub proof fn law_exclusive_excludes(self)
        requires
            self.grants_exclusive(),
        ensures
            !self.claim().grants_exclusive(),
            !self.claim().grants_shared(),
    {
    }

    /// While a shared borrow is out, further shared borrows are granted
    /// and an exclusive one is not.
    pub proof fn law_shared_admits_shared(self)
        requires
            self.grants_shared(),
        ensures
            self.share().grants_shared(),
            !self.share().grants_exclusive(),
    {
    }
}

/// The borrows of one storage that are out, counted at run time. A borrow
/// that cannot be granted is refused at once: nothing waits.
pub struct BorrowState {
    readers: usize,
    writer: bool,
}

impl View for BorrowState {
    type V = Claims;

    closed spec fn view(&self) -> Claims {
        Claims { readers: self.readers as nat, writer: self.writer }
    }
}

impl BorrowState {
    /// The state of a storage that nobody has borrowed.
    pub fn new() -> (state: BorrowState)
        ensures
            state@ == (Claims { readers: 0, writer: false }),
    {
        BorrowState { readers: 0, writer: false }
    }

    /// Number of shared borrows that are out.
    pub fn readers(&self) -> (readers: usize)
        ensures
            readers == self@.readers,
    {
        self.readers
    }

    /// Whether the exclusive borrow is out.
    pub fn is_writing(&self) -> (writing: bool)
        ensures
            writing == self@.writer,
    {
        self.writer
    }

    /// Asks for a shared borrow. It is granted unless the exclusive borrow
    /// is out, or the count of readers is at the largest number it can
    /// hold; a refusal changes nothing.
    pub fn try_borrow(&mut self) -> (granted: Result<(), Borrow>)
        ensures
            granted is Ok <==> old(self)@.grants_shared() && old(self)@.readers < usize::MAX,
            granted is Ok ==> final(self)@ == old(self)@.share(),
            granted matches Err(error) ==> error == Borrow::Shared && final(self)@ == old(self)@,
    {
        if self.writer || self.readers == usize::MAX {
            Err(Borrow::Shared)
        } else {
            self.readers = self.readers + 1;
            Ok(())
        }
    }

    /// Asks for the exclusive borrow. It is granted if and only if no
    /// borrow is out; a refusal changes nothing.
    pub fn try_borrow_mut(&mut self) -> (granted: Result<(), Borrow>)
        ensures
            granted is Ok <==> old(self)@.grants_exclusive(),
            granted is Ok ==> final(self)@ == old(self)@.claim(),
            granted matches Err(error) ==> error == Borrow::Unique && final(self)@ == old(self)@,
    {
        if self.writer || self.readers > 0 {
            Err(Borrow::Unique)
        } else {
            self.writer = true;
            Ok(())
        }
    }

    /// Gives back one shared borrow. Returns whether one was out; if none
    /// was, nothing changes.
    pub fn release(&mut self) -> (released: bool)
        ensures
            released <==> old(self)@.readers > 0,
            released ==> final(self)@ == (Claims {
                readers: (old(self)@.readers - 1) as nat,
                writer: old(self)@.writer,
            }),
            !released ==> final(self)@ == old(self)@,
    {
        if self.readers > 0 {
            self.readers = self.readers - 1;
            true
        } else {
            false
        }
    }

    /// Gives back the exclusive borrow. Returns whether it was out; if it
    /// was not, nothing changes.
    pub fn release_mut(&mut self) -> (released: bool)
        ensures
            released <==> old(self)@.writer,
            released ==> final(self)@ == (Claims { readers: old(self)@.readers, writer: false }),
            !released ==> final(self)@ == old(self)@,
    {
        if self.writer {
            self.writer = false;
            true
        } else {
            false
        }
    }
}

} // verus!
