//! Thread-synchronization primitives, modelled and verified.
//!
//! Each primitive of the library — spin lock, three-state mutex, condition
//! variable, reader-writer lock, reference-counted shared cell, blocking
//! queue and one-shot handoff — is built on a small machine word whose
//! transitions mirror the atomic instructions of a futex-based
//! implementation. The state words, their encodings and every transition
//! are verified here; the contracts pin down the protocol (who may hold a
//! guard, when a wake must be issued, when a payload is destroyed). A
//! runtime that drives these transitions with real atomics and a
//! wait/wake facility performs the blocking itself; the decision logic it
//! follows is the verified code in this crate.

pub mod arc;
pub mod channel;
pub mod condvar;
pub mod mutex;
pub mod oneshot;
pub mod rwlock;
pub mod spin;
