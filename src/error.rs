//! Errors of the timed locks, and how a raced acquisition is settled.

use vstd::prelude::*;

use crate::timeout::Timeout;

verus! {

#[verifier::external_type_specification]
#[verifier::external_body]
pub struct ExTryLockError(tokio::sync::TryLockError);

/// Which acquisition a timeout concerns.
#[derive(Clone, Copy, Debug, PartialEq, Eq, Structural)]
pub enum LockKind {
    /// The exclusive lock of a mutex.
    Lock,
    /// The shared lock of a reader/writer lock.
    Read,
    /// The exclusive lock of a reader/writer lock.
    Write,
}

/// Timed locks errors.
#[derive(Debug)]
pub enum Error {
    /// Mutex lock timeout error, with the timeout in whole seconds.
    LockTimeout(u64),
    /// Read lock timeout error, with the timeout in whole seconds.
    ReadLockTimeout(u64),
    /// Write lock timeout error, with the timeout in whole seconds.
    WriteLockTimeout(u64),
    /// A non-blocking `try_*` operation of the underlying lock failed.
    TokioSyncTryLock(tokio::sync::TryLockError),
}

/// The error that reports a timed out acquisition of the given kind.
pub open spec fn timeout_error(kind: LockKind, secs: u64) -> Error {
    match kind {
        LockKind::Lock => Error::LockTimeout(secs),
        LockKind::Read => Error::ReadLockTimeout(secs),
        LockKind::Write => Error::WriteLockTimeout(secs),
    }
}

/// The decimal digit that stands for `d`, where `d < 10`.
pub open spec fn digit_char(d: nat) -> char {
    "0123456789"@[d as int]
}

/// The decimal digits of `n`, most significant first, without leading zeros.
pub open spec fn decimal(n: nat) -> Seq<char>
    decreases n,
{
    if n < 10 {
        seq![digit_char(n)]
    } else {
        decimal(n / 10).push(digit_char(n % 10))
    }
}

/// Appends the decimal digits of `n` to `out`.
fn push_decimal(n: u64, out: &mut String)
    ensures
        final(out)@ == old(out)@ + decimal(n as nat),
    decreases n,
{
    let ghost start = out@;
    if n >= 10 {
        push_decimal(n / 10, out);
    }
    proof {
        reveal_strlit("0123456789");
    }
    let d: usize = (n % 10) as usize;
    let digit = "0123456789".substring_char(d, d + 1);
    assert(digit@ =~= seq![digit_char(d as nat)]);
    out.append(digit);
    assert(out@ =~= start + decimal(n as nat));
}

/// Relies on tokio's `Display` for `TryLockError`, which writes
/// "operation would block" whatever the error.
#[verifier::external_body]
fn try_lock_error_text(e: &tokio::sync::TryLockError) -> (r: String)
    ensures
        r@ == "operation would block"@,
{
    e.to_string()
}

/// The text that reports an error.
pub open spec fn message_of(e: Error) -> Seq<char> {
    match e {
        Error::LockTimeout(n) => "Timed out while waiting for `lock` after "@ + decimal(n as nat)
            + " seconds."@,
        Error::ReadLockTimeout(n) => "Timed out while waiting for `read` lock after "@
            + decimal(n as nat) + " seconds."@,
        Error::WriteLockTimeout(n) => "Timed out while waiting for `write` lock after "@
            + decimal(n as nat) + " seconds."@,
        Error::TokioSyncTryLock(_) => "operation would block"@,
    }
}

impl Error {
    /// The error that reports a timed out acquisition of `kind` after `secs`
    /// seconds.
    pub fn timed_out(kind: LockKind, secs: u64) -> (r: Error)
        ensures
            r == timeout_error(kind, secs),
    {
        match kind {
            LockKind::Lock => Error::LockTimeout(secs),
            LockKind::Read => Error::ReadLockTimeout(secs),
            LockKind::Write => Error::WriteLockTimeout(secs),
        }
    }

    /// The text that reports this error.
    pub fn message(&self) -> (r: String)
        ensures
            r@ == message_of(*self),
    {
        match self {
            Error::LockTimeout(n) => {
                let head = String::from_str("Timed out while waiting for `lock` after ");
                let mut text = head;
                push_decimal(*n, &mut text);
                text.concat(" seconds.")
            },
            Error::ReadLockTimeout(n) => {
                let head = String::from_str("Timed out while waiting for `read` lock after ");
                let mut text = head;
                push_decimal(*n, &mut text);
                text.concat(" seconds.")
            },
            Error::WriteLockTimeout(n) => {
                let head = String::from_str("Timed out while waiting for `write` lock after ");
                let mut text = head;
                push_decimal(*n, &mut text);
                text.concat(" seconds.")
            },
            Error::TokioSyncTryLock(e) => try_lock_error_text(e),
        }
    }

    /// Whether this error reports a timed out acquisition.
    pub fn is_timeout(&self) -> (r: bool)
        ensures
            r == !(*self is TokioSyncTryLock),
    {
        !matches!(self, Error::TokioSyncTryLock(_))
    }

    /// The timeout in whole seconds that a timeout error carries.
    pub fn timeout_secs(&self) -> (r: Option<u64>)
        ensures
            r == match *self {
                Error::LockTimeout(n) => Some(n),
                Error::ReadLockTimeout(n) => Some(n),
                Error::WriteLockTimeout(n) => Some(n),
                Error::TokioSyncTryLock(_) => None::<u64>,
            },
    {
        match self {
            Error::LockTimeout(n) => Some(*n),
            Error::ReadLockTimeout(n) => Some(*n),
            Error::WriteLockTimeout(n) => Some(*n),
            Error::TokioSyncTryLock(_) => None,
        }
    }
}

impl From<tokio::sync::TryLockError> for Error {
    /// Wraps a failed non-blocking acquisition of the underlying lock.
    fn from(e: tokio::sync::TryLockError) -> (r: Error) {
        Error::TokioSyncTryLock(e)
    }
}

impl vstd::std_specs::convert::FromSpecImpl<tokio::sync::TryLockError> for Error {
    open spec fn obeys_from_spec() -> bool {
        true
    }

    open spec fn from_spec(v: tokio::sync::TryLockError) -> Error {
        Error::TokioSyncTryLock(v)
    }
}

/// Settles the race between an acquisition and its timer: the guard where the
/// acquisition won (`Some`), else the timeout error of `kind`, carrying the
/// timeout in whole seconds.
pub fn settle<G>(acquired: Option<G>, kind: LockKind, timeout: Timeout) -> (r: Result<G, Error>)
    ensures
        match acquired {
            Some(g) => r == Ok::<G, Error>(g),
            None => r == Err::<G, Error>(timeout_error(kind, timeout.spec_secs())),
        },
{
    match acquired {
        Some(g) => Ok(g),
        None => Err(Error::timed_out(kind, timeout.as_secs())),
    }
}

} // verus!
