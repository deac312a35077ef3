//! Synchronization primitives for single-threaded async programming.

pub mod bounded;
pub mod channel;
pub mod condvar;
pub mod error;
pub mod oneshot;
pub mod pipe;
pub mod semaphore;
pub mod shared_state;
pub mod task;
pub mod unbounded;
pub mod waker_cell;
