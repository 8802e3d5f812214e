//! Borrowed views of a storage: shared for reading, exclusive for writing.

use vstd::prelude::*;
use crate::sparse_set::SparseSet;

verus! {

/// Shared view of a storage: its components can be read.
pub struct ViewRef<'a, T>(pub &'a SparseSet<T>);

/// Exclusive view of a storage: its components can be read, written,
/// inserted and removed.
pub struct ViewMut<'a, T>(pub &'a mut SparseSet<T>);

} // verus!
