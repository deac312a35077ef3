//! Collections that never hand out references to their content: an item
//! crosses the boundary by value, or is compared in place.
//!
//! A collection is changed through `&mut self`. Behind a
//! [`LocalShared`](crate::shared::LocalShared) it can be changed through every
//! handle to it.

pub mod queue;
pub mod set;
pub mod utils;

pub use queue::Queue;
pub use set::SealedSet;
pub use utils::UnsafeWrapper;
