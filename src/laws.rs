//! What holds of every timed out acquisition, whatever the lock.

use vstd::prelude::*;

use crate::error::{decimal, message_of, timeout_error, Error, LockKind};
use crate::mutex::Mutex;
use crate::rwlock::RwLock;
use crate::timeout::Timeout;

verus! {

/// A timed out acquisition on a lock built with the default timeout reports
/// thirty seconds, under the error of its own kind.
pub proof fn default_timeout_reports_thirty(kind: LockKind)
    ensures
        timeout_error(kind, Timeout::default_timeout_spec().spec_secs()) == match kind {
            LockKind::Lock => Error::LockTimeout(30),
            LockKind::Read => Error::ReadLockTimeout(30),
            LockKind::Write => Error::WriteLockTimeout(30),
        },
{
    Timeout::lemma_default_timeout();
}

/// With the default timeout, a timed out acquisition reports thirty seconds
/// in its text, naming the operation that waited.
pub proof fn default_timeout_messages()
    ensures
        message_of(timeout_error(LockKind::Lock, Timeout::default_timeout_spec().spec_secs()))
            == "Timed out while waiting for `lock` after 30 seconds."@,
        message_of(timeout_error(LockKind::Read, Timeout::default_timeout_spec().spec_secs()))
            == "Timed out while waiting for `read` lock after 30 seconds."@,
        message_of(timeout_error(LockKind::Write, Timeout::default_timeout_spec().spec_secs()))
            == "Timed out while waiting for `write` lock after 30 seconds."@,
{
    Timeout::lemma_default_timeout();
    reveal_strlit("0123456789");
    reveal_strlit("Timed out while waiting for `lock` after ");
    reveal_strlit("Timed out while waiting for `read` lock after ");
    reveal_strlit("Timed out while waiting for `write` lock after ");
    reveal_strlit(" seconds.");
    reveal_strlit("Timed out while waiting for `lock` after 30 seconds.");
    reveal_strlit("Timed out while waiting for `read` lock after 30 seconds.");
    reveal_strlit("Timed out while waiting for `write` lock after 30 seconds.");
    assert(decimal(3) =~= seq!['3']);
    assert(decimal(30) =~= seq!['3', '0']);
    assert(message_of(timeout_error(LockKind::Lock, 30))
        =~= "Timed out while waiting for `lock` after 30 seconds."@);
    assert(message_of(timeout_error(LockKind::Read, 30))
        =~= "Timed out while waiting for `read` lock after 30 seconds."@);
    assert(message_of(timeout_error(LockKind::Write, 30))
        =~= "Timed out while waiting for `write` lock after 30 seconds."@);
}

/// A mutex built with a given timeout reports that timeout's whole seconds
/// when a `lock` times out, and a reader/writer lock does so for `read` and
/// `write`.
pub proof fn custom_timeout_is_reported<A, B>(m: Mutex<A>, l: RwLock<B>, t: Timeout)
    requires
        m.spec_timeout() == t,
        l.spec_timeout() == t,
    ensures
        timeout_error(LockKind::Lock, m.spec_timeout().spec_secs()) == Error::LockTimeout(
            t.spec_secs(),
        ),
        timeout_error(LockKind::Read, l.spec_timeout().spec_secs()) == Error::ReadLockTimeout(
            t.spec_secs(),
        ),
        timeout_error(LockKind::Write, l.spec_timeout().spec_secs()) == Error::WriteLockTimeout(
            t.spec_secs(),
        ),
{
}

/// The text of a timeout error names the operation that timed out: `lock`
/// for a mutex, `read` and `write` for a reader/writer lock.
pub proof fn timeout_message_names_operation(secs: u64)
    ensures
        message_of(timeout_error(LockKind::Lock, secs)).subrange(0, 34)
            == "Timed out while waiting for `lock`"@,
        message_of(timeout_error(LockKind::Read, secs)).subrange(0, 34)
            == "Timed out while waiting for `read`"@,
        message_of(timeout_error(LockKind::Write, secs)).subrange(0, 35)
            == "Timed out while waiting for `write`"@,
{
    reveal_strlit("Timed out while waiting for `lock` after ");
    reveal_strlit("Timed out while waiting for `read` lock after ");
    reveal_strlit("Timed out while waiting for `write` lock after ");
    reveal_strlit("Timed out while waiting for `lock`");
    reveal_strlit("Timed out while waiting for `read`");
    reveal_strlit("Timed out while waiting for `write`");
    assert(message_of(timeout_error(LockKind::Lock, secs)).subrange(0, 34)
        =~= "Timed out while waiting for `lock`"@);
    assert(message_of(timeout_error(LockKind::Read, secs)).subrange(0, 34)
        =~= "Timed out while waiting for `read`"@);
    assert(message_of(timeout_error(LockKind::Write, secs)).subrange(0, 35)
        =~= "Timed out while waiting for `write`"@);
}

} // verus!
