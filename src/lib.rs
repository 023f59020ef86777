//! Smart pointers to `tokio::sync` locks whose acquisition is bounded by a
//! timeout: a caller either gets the guard in time or learns that the wait
//! ran out, instead of waiting forever.

use vstd::prelude::*;

pub mod error;
pub mod laws;
pub mod mutex;
pub mod rwlock;
pub mod underlying;
pub mod timeout;

pub use error::{settle, Error, LockKind};
pub use mutex::Mutex;
pub use rwlock::RwLock;
pub use timeout::{Timeout, DEFAULT_TIMEOUT_SECS};

verus! {

/// Result of the timed locks.
pub type Result<T> = core::result::Result<T, Error>;

} // verus!
