//! A `tokio::sync::Mutex` whose acquisition is bounded by a timeout.

use vstd::prelude::*;

use crate::timeout::Timeout;
use crate::underlying::new_tokio_mutex;

verus! {

/// A `tokio::sync::Mutex` whose acquisition gives up after a timeout, thirty
/// seconds by default.
#[verifier::reject_recursive_types(T)]
pub struct Mutex<T> {
    inner: tokio::sync::Mutex<T>,
    timeout: Timeout,
}

impl<T> Mutex<T> {
    #[verifier::type_invariant]
    spec fn inv(self) -> bool {
        self.timeout.wf()
    }

    /// The underlying lock that every acquisition goes to.
    pub closed spec fn spec_inner(self) -> tokio::sync::Mutex<T> {
        self.inner
    }

    /// The timeout that acquisitions wait for.
    pub closed spec fn spec_timeout(self) -> Timeout {
        self.timeout
    }

    /// A mutex around `value` with the default timeout.
    pub fn new(value: T) -> (r: Mutex<T>)
        ensures
            r.spec_timeout() == Timeout::default_timeout_spec(),
    {
        Mutex { inner: new_tokio_mutex(value), timeout: Timeout::default_timeout() }
    }

    /// A mutex around `value` whose acquisitions wait for `timeout`.
    pub fn new_with_timeout(value: T, timeout: Timeout) -> (r: Mutex<T>)
        requires
            timeout.wf(),
        ensures
            r.spec_timeout() == timeout,
    {
        Mutex { inner: new_tokio_mutex(value), timeout }
    }

    /// The timeout that acquisitions wait for; it never changes.
    pub fn timeout(&self) -> (r: Timeout)
        ensures
            r == self.spec_timeout(),
            r.wf(),
    {
        proof {
            use_type_invariant(self);
        }
        self.timeout
    }
}

impl<T: Default> Default for Mutex<T> {
    fn default() -> (r: Mutex<T>)
        ensures
            r.spec_timeout() == Timeout::default_timeout_spec(),
    {
        Mutex::new(T::default())
    }
}

impl<T> From<T> for Mutex<T> {
    /// A lock around `value` with the default timeout, as `new` builds it.
    fn from(value: T) -> (r: Mutex<T>)
        ensures
            r.spec_timeout() == Timeout::default_timeout_spec(),
    {
        Mutex::new(value)
    }
}

impl<T> vstd::std_specs::convert::FromSpecImpl<T> for Mutex<T> {
    /// The underlying lock has no model, so no single value stands for the
    /// result; what `from` gives is stated in its own `ensures`.
    open spec fn obeys_from_spec() -> bool {
        false
    }

    open spec fn from_spec(v: T) -> Mutex<T> {
        arbitrary()
    }
}

impl<T> core::ops::Deref for Mutex<T> {
    type Target = tokio::sync::Mutex<T>;

    /// The underlying lock, for its operations that wait without a bound.
    fn deref(&self) -> (r: &tokio::sync::Mutex<T>)
        ensures
            *r == self.spec_inner(),
    {
        &self.inner
    }
}

} // verus!
