//! Write access that records the first write.

use vstd::prelude::*;
use crate::sparse_set::Flag;

verus! {

/// A component handed out for writing by a tracked access, together with
/// the flag of its slot where that flag is still clean. Reading leaves the
/// flag alone; the first access for writing sets it to modified, and later
/// ones find it set.
pub struct Mut<'a, T> {
    /// The flag of the slot, while it is not yet set.
    pub flag: Option<&'a mut Flag>,
    /// The component.
    pub data: &'a mut T,
}

impl<'a, T> Mut<'a, T> {
    /// The component, for reading. Sets no flag.
    pub fn get(&self) -> (value: &T)
        ensures
            *value == *old(self.data),
    {
        &*self.data
    }

    /// The component, for writing. Sets the flag of the slot to modified
    /// if it was still clean, and gives the flag up: a second call sets
    /// nothing.
    pub fn get_mut(&mut self) -> (value: &mut T)
        ensures
            *value == *old(self).data,
            *final(self).data == *final(value),
            *final(final(self).data) == *final(old(self).data),
            final(self).flag is None,
            old(self).flag matches Some(flag) ==> *final(flag) == Flag::Modified,
    {
        match self.flag.take() {
            Some(flag) => {
                *flag = Flag::Modified;
            },
            None => {},
        }
        &mut *self.data
    }
}

} // verus!
