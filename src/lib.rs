//! A reentrant mutual-exclusion lock, modelled as a verified state machine.
//!
//! Threads are named by a `u64` identifier. The thread that holds the lock may
//! acquire it again any number of times; every other thread is refused until
//! the outermost acquisition has been released. A release that happens while
//! the holding thread unwinds poisons the lock for good.
mod model;
mod poison;
mod primitive;
mod remutex;

pub use model::{LockModel, LockOp};
pub use poison::{granted, try_granted, try_outcome, Flag, LockResult, PoisonError, TryLockError, TryLockResult, TryOutcome};
pub use primitive::RecursiveLock;
pub use remutex::{ReentrantMutex, ReentrantMutexGuard};
