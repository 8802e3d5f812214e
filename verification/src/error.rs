//! What the store reports instead of an answer.

use vstd::prelude::*;
use crate::entity::key::Key;
use crate::type_id::TypeId;

verus! {

/// The entity has no component of the type asked for.
#[derive(Clone, Copy, PartialEq, Eq, Debug)]
pub struct MissingComponent {
    /// The handle that was asked about.
    pub id: Key,
    /// The type of component that it does not have.
    pub type_id: TypeId,
    /// The name of that type, as the storage was given it.
    pub name: &'static str,
}

/// A borrow that cannot be granted beside those that are out.
#[derive(Clone, Copy, PartialEq, Eq, Structural, Debug)]
pub enum Borrow {
    /// An exclusive borrow was asked for while the storage is borrowed,
    /// shared or exclusively.
    Unique,
    /// A shared borrow was asked for while the storage is borrowed
    /// exclusively, or by more readers than can be counted.
    Shared,
}

} // verus!
