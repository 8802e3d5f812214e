//! An entity-component store.
//!
//! - [`entity`]: handles that pack an index and a version, and the
//!   allocator that issues them and recycles the slots of deleted entities.
//! - [`sparse_set`]: the storage of the components of one type, found by
//!   handle in constant time and kept densely packed for iteration.
//! - [`storage`]: storages seen without the type of their components, for
//!   deleting an entity from all of them.
//! - [`view`], [`get`], [`mutation`]: shared and exclusive views of
//!   storages, retrieval of the components of an entity through one view or
//!   a tuple of views, and write access that records the first write.
//! - [`borrow`]: the run-time count of the borrows of a storage, and the
//!   rule by which units of work can run at the same time.
//! - [`type_id`]: identifiers of types that can be ordered, hashed and
//!   sent elsewhere.
//! - [`effect`]: flags that wear off after a number of frames.
//! - [`error`]: what the store reports instead of an answer.

pub mod borrow;
pub mod effect;
pub mod entity;
pub mod error;
pub mod get;
pub mod mutation;
pub mod sparse_set;
pub mod storage;
pub mod type_id;
pub mod view;

pub use borrow::BorrowState;
pub use borrow::Mutability;
pub use borrow::TypeInfo;
pub use effect::Effect;
pub use entity::key::Key;
pub use entity::Entities;
pub use entity::EntityViewMut;
pub use get::Get;
pub use mutation::Mut;
pub use sparse_set::Flag;
pub use sparse_set::SparseSet;
pub use storage::UnknownStorage;
pub use type_id::TypeId;
pub use view::ViewMut;
pub use view::ViewRef;
