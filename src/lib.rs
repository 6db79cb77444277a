//! A lazily initialised name-resolution adapter, as a verified state machine.
//!
//! The resolver engine cannot be built until an asynchronous runtime is
//! running, yet the adapter is often created before that. The adapter
//! therefore holds a [`state::InitState`] behind an asynchronous lock: the first
//! call to resolve a name builds the engine while holding the lock, publishes
//! it, and every later call reuses it. Lookups run on the published handle
//! after the lock is released.
//!
//! This crate holds the decisions made inside that critical section and the
//! mapping of outcomes to errors, with their laws. The runtime, the lock and
//! the engine itself are supplied by the caller.

pub mod error;
pub mod laws;
pub mod state;
