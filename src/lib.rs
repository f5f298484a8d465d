//! Single-flight coordination for a concurrent cache: the decisions that let
//! one caller per key and call shape compute a value while every other caller
//! for that key waits and then reuses the outcome.
//!
//! - `waiter`: the slot a computation publishes its outcome in.
//! - `init`: the initializer protocol ("read, or compute once and cache").
//! - `compute`: the read-modify-write protocol and its access to the cache.
//! - `registry`: a model of the registry of in-flight slots, with the
//!   invariant that makes each computation exclusive.

pub mod compute;
pub mod init;
pub mod registry;
pub mod waiter;
