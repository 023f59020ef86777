//! The tokio locks that the timed locks wrap.

use vstd::prelude::*;

use tokio::sync::Mutex as TokioMutex;
use tokio::sync::RwLock as TokioRwLock;

verus! {

#[verifier::external_type_specification]
#[verifier::external_body]
#[verifier::reject_recursive_types(T)]
pub struct ExTokioMutex<T: ?Sized>(TokioMutex<T>);

#[verifier::external_type_specification]
#[verifier::external_body]
#[verifier::reject_recursive_types(T)]
pub struct ExTokioRwLock<T: ?Sized>(TokioRwLock<T>);

/// Relies on `tokio::sync::Mutex::new`, which builds an unlocked mutex around
/// the value and does not fail.
#[verifier::external_body]
pub(crate) fn new_tokio_mutex<T>(value: T) -> TokioMutex<T> {
    TokioMutex::new(value)
}

/// Relies on `tokio::sync::RwLock::new`, which builds an unlocked lock around
/// the value and does not fail.
#[verifier::external_body]
pub(crate) fn new_tokio_rwlock<T>(value: T) -> TokioRwLock<T> {
    TokioRwLock::new(value)
}

} // verus!
