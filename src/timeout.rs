//! The wait bound that a lock is built with.

use vstd::prelude::*;

verus! {

/// Whole seconds of the default timeout.
pub const DEFAULT_TIMEOUT_SECS: u64 = 30;

/// Nanoseconds in one second.
pub const NANOS_PER_SEC: u32 = 1_000_000_000;

/// A positive span of time: `secs` whole seconds and `nanos` nanoseconds.
#[derive(Clone, Copy, Debug, PartialEq, Eq, Structural)]
pub struct Timeout {
    secs: u64,
    nanos: u32,
}

impl Timeout {
    /// The span is positive and `nanos` stays below one second.
    pub open spec fn wf(self) -> bool {
        &&& self.spec_nanos() < NANOS_PER_SEC
        &&& (self.spec_secs() > 0 || self.spec_nanos() > 0)
    }

    /// Whole seconds of the span.
    pub closed spec fn spec_secs(self) -> u64 {
        self.secs
    }

    /// Nanoseconds beyond the whole seconds.
    pub closed spec fn spec_nanos(self) -> u32 {
        self.nanos
    }

    /// A span of `secs` seconds and `nanos` nanoseconds; `None` where it would
    /// be zero or where `nanos` is a second or more.
    pub fn new(secs: u64, nanos: u32) -> (r: Option<Timeout>)
        ensures
            r is Some <==> (nanos < NANOS_PER_SEC && (secs > 0 || nanos > 0)),
            r matches Some(t) ==> t.wf() && t.spec_secs() == secs && t.spec_nanos() == nanos,
    {
        if nanos < NANOS_PER_SEC && (secs > 0 || nanos > 0) {
            Some(Timeout { secs, nanos })
        } else {
            None
        }
    }

    /// A span of `secs` whole seconds.
    pub fn from_secs(secs: u64) -> (r: Timeout)
        requires
            secs > 0,
        ensures
            r.wf(),
            r.spec_secs() == secs,
            r.spec_nanos() == 0,
    {
        Timeout { secs, nanos: 0 }
    }

    /// The default span of thirty seconds.
    pub closed spec fn default_timeout_spec() -> Timeout {
        Timeout { secs: DEFAULT_TIMEOUT_SECS, nanos: 0 }
    }

    /// The default span is thirty whole seconds and well formed.
    pub proof fn lemma_default_timeout()
        ensures
            Timeout::default_timeout_spec().wf(),
            Timeout::default_timeout_spec().spec_secs() == DEFAULT_TIMEOUT_SECS,
            Timeout::default_timeout_spec().spec_nanos() == 0,
    {
    }

    /// The default span of thirty seconds.
    pub fn default_timeout() -> (r: Timeout)
        ensures
            r == Timeout::default_timeout_spec(),
            r.wf(),
            r.spec_secs() == DEFAULT_TIMEOUT_SECS,
            r.spec_nanos() == 0,
    {
        Timeout::from_secs(DEFAULT_TIMEOUT_SECS)
    }

    /// Whole seconds of the span.
    pub fn as_secs(&self) -> (r: u64)
        ensures
            r == self.spec_secs(),
    {
        self.secs
    }

    /// Nanoseconds beyond the whole seconds.
    pub fn subsec_nanos(&self) -> (r: u32)
        ensures
            r == self.spec_nanos(),
    {
        self.nanos
    }
}

} // verus!
