//! Retrieving the components of an entity through views, one view or
//! several at once.

pub mod tuples;

use vstd::prelude::*;
use crate::entity::key::Key;
use crate::error::MissingComponent;
use crate::mutation::Mut;
use crate::sparse_set::Flag;
use crate::view::ViewMut;
use crate::view::ViewRef;

verus! {

/// Retrieves components based on their type and the handle of their
/// entity.
///
/// A view gives the component of its storage; a tuple of views gives the
/// tuple of their components, or the error of the first view, from the
/// left, whose storage has none for the entity.
pub trait Get: Sized {
    /// What `get` hands out.
    type Out;

    /// What `fast_get` hands out.
    type FastOut;

    /// The invariant of the storages behind the views.
    spec fn wf(&self) -> bool;

    /// Whether every storage has a component that `entity` owns.
    spec fn has(&self, entity: Key) -> bool;

    /// The error for `entity` where not every storage has a component for
    /// it: it names the entity and the type of the first storage that has
    /// none.
    spec fn missing(&self, entity: Key) -> MissingComponent;

    /// Whether `out` is what `get` hands out for `entity`, as far as the
    /// moment of the call goes.
    spec fn yields(&self, entity: Key, out: Self::Out) -> bool;

    /// Whether `out` is what `fast_get` hands out for `entity`, as far as
    /// the moment of the call goes.
    spec fn fast_yields(&self, entity: Key, out: Self::FastOut) -> bool;

    /// Retrieves the components of `entity`. Where a component is handed
    /// out for writing, the first write is recorded in the flag of its
    /// slot.
    fn get(self, entity: Key) -> (found: Result<Self::Out, MissingComponent>)
        requires
            self.wf(),
        ensures
            found is Ok <==> self.has(entity),
            found matches Ok(out) ==> self.yields(entity, out),
            found matches Err(error) ==> error == self.missing(entity),
    ;

    /// Retrieves the components of `entity` without tracking of
    /// modifications: no flag is set, by the call or by a later write.
    fn fast_get(self, entity: Key) -> (found: Result<Self::FastOut, MissingComponent>)
        requires
            self.wf(),
        ensures
            found is Ok <==> self.has(entity),
            found matches Ok(out) ==> self.fast_yields(entity, out),
            found matches Err(error) ==> error == self.missing(entity),
    ;
}

impl<'a: 'b, 'b, T> Get for &'b ViewRef<'a, T> {
    type Out = &'b T;

    type FastOut = &'b T;

    open spec fn wf(&self) -> bool {
        self.0.wf()
    }

    open spec fn has(&self, entity: Key) -> bool {
        self.0.spec_contains(entity)
    }

    open spec fn missing(&self, entity: Key) -> MissingComponent {
        self.0.spec_missing(entity)
    }

    open spec fn yields(&self, entity: Key, out: &'b T) -> bool {
        self.0.spec_index_of(entity) matches Some(p) && *out == self.0@[p as int].1
    }

    open spec fn fast_yields(&self, entity: Key, out: &'b T) -> bool {
        self.yields(entity, out)
    }

    fn get(self, entity: Key) -> (found: Result<&'b T, MissingComponent>) {
        match self.0.get(entity) {
            Some(value) => Ok(value),
            None => Err(self.0.missing(entity)),
        }
    }

    fn fast_get(self, entity: Key) -> (found: Result<&'b T, MissingComponent>) {
        match self.0.get(entity) {
            Some(value) => Ok(value),
            None => Err(self.0.missing(entity)),
        }
    }
}

impl<'a: 'b, 'b, T> Get for &'b ViewMut<'a, T> {
    type Out = &'b T;

    type FastOut = &'b T;

    open spec fn wf(&self) -> bool {
        self.0.wf()
    }

    open spec fn has(&self, entity: Key) -> bool {
        self.0.spec_contains(entity)
    }

    open spec fn missing(&self, entity: Key) -> MissingComponent {
        self.0.spec_missing(entity)
    }

    open spec fn yields(&self, entity: Key, out: &'b T) -> bool {
        self.0.spec_index_of(entity) matches Some(p) && *out == self.0@[p as int].1
    }

    open spec fn fast_yields(&self, entity: Key, out: &'b T) -> bool {
        self.yields(entity, out)
    }

    fn get(self, entity: Key) -> (found: Result<&'b T, MissingComponent>) {
        match self.0.get(entity) {
            Some(value) => Ok(value),
            None => Err(self.0.missing(entity)),
        }
    }

    fn fast_get(self, entity: Key) -> (found: Result<&'b T, MissingComponent>) {
        match self.0.get(entity) {
            Some(value) => Ok(value),
            None => Err(self.0.missing(entity)),
        }
    }
}

impl<'a: 'b, 'b, T> Get for &'b mut ViewMut<'a, T> {
    type Out = Mut<'b, T>;

    type FastOut = &'b mut T;

    open spec fn wf(&self) -> bool {
        self.0.wf()
    }

    open spec fn has(&self, entity: Key) -> bool {
        self.0.spec_contains(entity)
    }

    open spec fn missing(&self, entity: Key) -> MissingComponent {
        self.0.spec_missing(entity)
    }

    open spec fn yields(&self, entity: Key, out: Mut<'b, T>) -> bool {
        &&& self.0.spec_index_of(entity) matches Some(p)
        &&& *out.data == self.0@[p as int].1
        &&& out.flag is Some <==> self.0.spec_tracking() && self.0.flags()[p as int] == Flag::Clean
        &&& out.flag matches Some(flag) ==> *flag == Flag::Clean
    }

    open spec fn fast_yields(&self, entity: Key, out: &'b mut T) -> bool {
        self.0.spec_index_of(entity) matches Some(p) && *out == self.0@[p as int].1
    }

    /// The component comes with the flag of its slot where the storage
    /// tracks and the flag is still clean. The storage afterwards holds
    /// what was written to the component, and in the flag of the slot what
    /// was written to the flag; all else stays.
    fn get(self, entity: Key) -> (found: Result<Mut<'b, T>, MissingComponent>)
        ensures
            final(self).0.wf(),
            *final(final(self).0) == *final(old(self).0),
            final(self).0.spec_tracking() == old(self).0.spec_tracking(),
            final(self).0.spec_type_id() == old(self).0.spec_type_id(),
            final(self).0.spec_name() == old(self).0.spec_name(),
            forall|i: usize| final(self).0.position(i) == old(self).0.position(i),
            match found {
                Ok(out) => {
                    let p = old(self).0.spec_index_of(entity)->0 as int;
                    &&& final(self).0@ == old(self).0@.update(p, (entity, *final(out.data)))
                    &&& match out.flag {
                        Some(flag) => final(self).0.flags() == old(self).0.flags().update(
                            p,
                            *final(flag),
                        ),
                        None => final(self).0.flags() == old(self).0.flags(),
                    }
                },
                Err(_) => final(self).0@ == old(self).0@ && final(self).0.flags() == old(
                    self).0.flags(),
            },
    {
        let error = self.0.missing(entity);
        match self.0.get_tracked(entity) {
            Some(out) => Ok(out),
            None => Err(error),
        }
    }

    /// The storage afterwards holds what was written to the component;
    /// all else stays, the flags too.
    fn fast_get(self, entity: Key) -> (found: Result<&'b mut T, MissingComponent>)
        ensures
            final(self).0.wf(),
            *final(final(self).0) == *final(old(self).0),
            final(self).0.spec_tracking() == old(self).0.spec_tracking(),
            final(self).0.spec_type_id() == old(self).0.spec_type_id(),
            final(self).0.spec_name() == old(self).0.spec_name(),
            final(self).0.flags() == old(self).0.flags(),
            forall|i: usize| final(self).0.position(i) == old(self).0.position(i),
            match found {
                Ok(out) => final(self).0@ == old(self).0@.update(
                    old(self).0.spec_index_of(entity)->0 as int,
                    (entity, *final(out)),
                ),
                Err(_) => final(self).0@ == old(self).0@,
            },
    {
        let error = self.0.missing(entity);
        match self.0.get_mut(entity) {
            Some(out) => Ok(out),
            None => Err(error),
        }
    }
}

} // verus!
