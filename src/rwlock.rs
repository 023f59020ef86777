//! A `tokio::sync::RwLock` whose read and write acquisitions are bounded by a timeout.

use vstd::prelude::*;

use crate::timeout::Timeout;
use crate::underlying::new_tokio_rwlock;

verus! {

/// A `tokio::sync::RwLock` whose acquisition gives up after a timeout, thirty
/// seconds by default.
#[verifier::reject_recursive_types(T)]
pub struct RwLock<T> {
    inner: tokio::sync::RwLock<T>,
    timeout: Timeout,
}

impl<T> RwLock<T> {
    #[verifier::type_invariant]
    spec fn inv(self) -> bool {
        self.timeout.wf()
    }

    /// The underlying lock that every acquisition goes to.
    pub closed spec fn spec_inner(self) -> tokio::sync::RwLock<T> {
        self.inner
    }

    /// The timeout that acquisitions wait for.
    pub closed spec fn spec_timeout(self) -> Timeout {
        self.timeout
    }

    /// A lock around `value` with the default timeout.
    pub fn new(value: T) -> (r: RwLock<T>)
        ensures
            r.spec_timeout() == Timeout::default_timeout_spec(),
    {
        RwLock { inner: new_tokio_rwlock(value), timeout: Timeout::default_timeout() }
    }

    /// A lock around `value` whose acquisitions wait for `timeout`.
    pub fn new_with_timeout(value: T, timeout: Timeout) -> (r: RwLock<T>)
        requires
            timeout.wf(),
        ensures
            r.spec_timeout() == timeout,
    {
        RwLock { inner: new_tokio_rwlock(value), timeout }
    }

    /// The timeout that acquisitions wait for; it never changes.
    pub fn timeout(&self) -> (r: Timeout)
        ensures
            r == self.spec_timeout(),
            r.wf(),
    {
        proof {
            use_type_invariant(self);
        }
        self.timeout
    }
}

impl<T: Default> Default for RwLock<T> {
    fn default() -> (r: RwLock<T>)
        ensures
            r.spec_timeout() == Timeout::default_timeout_spec(),
    {
        RwLock::new(T::default())
    }
}

impl<T> From<T> for RwLock<T> {
    /// A lock around `value` with the default timeout, as `new` builds it.
    fn from(value: T) -> (r: RwLock<T>)
        ensures
            r.spec_timeout() == Timeout::default_timeout_spec(),
    {
        RwLock::new(value)
    }
}

impl<T> vstd::std_specs::convert::FromSpecImpl<T> for RwLock<T> {
    /// The underlying lock has no model, so no single value stands for the
    /// result; what `from` gives is stated in its own `ensures`.
    open spec fn obeys_from_spec() -> bool {
        false
    }

    open spec fn from_spec(v: T) -> RwLock<T> {
        arbitrary()
    }
}

impl<T> core::ops::Deref for RwLock<T> {
    type Target = tokio::sync::RwLock<T>;

    /// The underlying lock, for its operations that wait without a bound.
    fn deref(&self) -> (r: &tokio::sync::RwLock<T>)
        ensures
            *r == self.spec_inner(),
    {
        &self.inner
    }
}

} // verus!
