//! A mutual-exclusion primitive with poison tracking for minimal-runtime
//! targets.
//!
//! The crate is organised bottom-up:
//! - [`poison`] tracks whether a critical section was abandoned mid-failure;
//! - [`lazy_box`] is a single-assignment, race-resolved owning slot used to
//!   defer heap placement of platform lock objects;
//! - [`mutex`] composes a platform lock backend, a poison flag and the
//!   protected value under one generic locking API with a guard type;
//! - [`exclusion`] proves, over an event-level model of racing threads,
//!   that the lock's acquisition rule is what keeps a shared counter exact.

pub mod exclusion;
pub mod lazy_box;
pub mod mutex;
pub mod poison;

pub use poison::{LockResult, TryLockError, TryLockResult};
