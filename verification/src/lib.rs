//! Synchronization primitives for tasks that share one executor thread.
//!
//! Every primitive comes in two layers.
//!
//! The state block is a plain value with `&mut self` transitions. Each
//! transition has an exact contract over a mathematical model of the block,
//! and the laws of the primitive are proved of that model: that a bounded
//! queue stays within its capacity, that permits are conserved, that a waiting
//! task is resumed once, that nothing is lost when a side goes away.
//!
//! The handles are what tasks hold. The handles of one primitive reach one
//! block through [`shared::LocalShared`], for the length of one transition at
//! a time. What a handle finds in the block depends on what the other handles
//! did, so a handle's contract says what holds for every state of the block.
//!
//! A transition is not interrupted by another one on the same block. A call
//! on a handle that is made while a transition on its block is under way, from
//! code that the transition runs (a waker, a comparison, a destructor), is
//! refused: it does nothing, tells so in its result, and hands back what it
//! was given.
//!
//! A side goes away when its handle's `close` is called; dropping a handle
//! does not close it. A wrapper that closes on drop, implements the executor's
//! traits and treats a refused call as fatal belongs around the handle.

pub mod sealed;
pub mod shared;
pub mod sync;
