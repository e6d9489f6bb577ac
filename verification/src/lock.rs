use vstd::prelude::*;
use crate::errors::LockError;

verus! {

/// Default number of fan-out attempts before an acquisition gives up.
pub const DEFAULT_RETRY_COUNT: u32 = 3;

/// Default base, in milliseconds, of the randomized pause between attempts.
pub const DEFAULT_RETRY_DELAY_MS: u128 = 200;

/// Number of random bytes in the value that identifies one acquisition.
pub const UNIQUE_ID_BYTES: usize = 20;

/// The quorum threshold over `n` stores: a strict majority.
pub open spec fn quorum_of(n: int) -> int {
    n / 2 + 1
}

/// A held lock.
///
/// Immutable: the resource key, the unique value whose presence at a store
/// proves ownership, and the window during which the holder may still
/// assume the lock. A fresh descriptor comes out of a successful
/// acquisition; an extension yields a new descriptor with the same value
/// and a fresh window.
#[derive(Clone, Debug)]
pub struct Lock {
    /// The resource to lock; used as the key at every store.
    pub resource: Vec<u8>,
    /// The value stored under the key; only its holder can release or
    /// extend the lock.
    pub val: Vec<u8>,
    /// Milliseconds for which the holder may still assume the lock; always
    /// strictly below the TTL that was requested.
    pub validity_time: u64,
}

/// The lock manager: the configured store set, the quorum threshold
/// derived from it, and the retry policy.
///
/// The manager itself performs no I/O; it fixes the parameters that every
/// acquisition run over the store set obeys.
#[derive(Clone, Debug)]
pub struct LockManager {
    /// The configured store endpoints, one URI per store.
    pub servers: Vec<String>,
    pub(crate) quorum: usize,
    pub(crate) retry_count: u32,
    pub(crate) retry_delay_ms: u128,
}

impl LockManager {
    /// The configured store endpoints, in order.
    pub closed spec fn servers_spec(&self) -> Seq<String> {
        self.servers@
    }

    /// The number of stores whose acknowledgement one attempt needs.
    pub closed spec fn quorum_spec(&self) -> usize {
        self.quorum
    }

    /// How many fan-out attempts one acquisition run makes before giving up.
    pub closed spec fn retry_count_spec(&self) -> u32 {
        self.retry_count
    }

    /// The base, in milliseconds, of the randomized pause between attempts.
    pub closed spec fn retry_delay_spec(&self) -> u128 {
        self.retry_delay_ms
    }

    /// Builds a manager over the given store endpoints with the default
    /// retry policy. The quorum is fixed here, once: a strict majority of
    /// the endpoints given.
    pub fn new(uris: Vec<String>) -> (mgr: LockManager)
        ensures
            mgr.servers_spec() == uris@,
            mgr.quorum_spec() == quorum_of(uris@.len() as int),
            mgr.retry_count_spec() == DEFAULT_RETRY_COUNT,
            mgr.retry_delay_spec() == DEFAULT_RETRY_DELAY_MS,
    {
        let quorum: usize = uris.len() / 2 + 1;
        LockManager {
            servers: uris,
            quorum,
            retry_count: DEFAULT_RETRY_COUNT,
            retry_delay_ms: DEFAULT_RETRY_DELAY_MS,
        }
    }

    /// Overrides the retry policy: `count` attempts, a randomized pause
    /// below `delay_ms` milliseconds between them.
    pub fn set_retry(&mut self, count: u32, delay_ms: u128)
        ensures
            final(self).retry_count_spec() == count,
            final(self).retry_delay_spec() == delay_ms,
            final(self).quorum_spec() == old(self).quorum_spec(),
            final(self).servers_spec() == old(self).servers_spec(),
    {
        self.retry_count = count;
        self.retry_delay_ms = delay_ms;
    }

    /// Draws the 20 random bytes that identify one acquisition attempt.
    /// Only their number is promised; their unpredictability comes from the
    /// cryptographically secure source behind them.
    pub fn get_unique_lock_id(&self) -> (id: Vec<u8>)
        ensures
            id@.len() == UNIQUE_ID_BYTES,
    {
        let mut buf: Vec<u8> = Vec::new();
        let mut i: usize = 0;
        while i < UNIQUE_ID_BYTES
            invariant
                i <= UNIQUE_ID_BYTES,
                buf@.len() == i,
            decreases UNIQUE_ID_BYTES - i,
        {
            buf.push(0u8);
            i = i + 1;
        }
        crate::rng::fill_random(&mut buf);
        buf
    }

    /// The quorum threshold this manager decides attempts by.
    pub fn quorum(&self) -> (q: usize)
        ensures
            q == self.quorum_spec(),
    {
        self.quorum
    }

    /// The configured number of attempts per acquisition run.
    pub fn retry_count(&self) -> (c: u32)
        ensures
            c == self.retry_count_spec(),
    {
        self.retry_count
    }

    /// The configured base of the randomized pause between attempts.
    pub fn retry_delay_millis(&self) -> (d: u128)
        ensures
            d == self.retry_delay_spec(),
    {
        self.retry_delay_ms
    }
}

/// Converts a requested TTL, in milliseconds, to the width the store wire
/// encoding carries. A TTL beyond that width is rejected before any I/O.
pub fn ttl_millis(ms: u128) -> (r: Result<u64, LockError>)
    ensures
        ms <= u64::MAX ==> r == Ok::<u64, LockError>(ms as u64),
        ms > u64::MAX ==> r == Err::<u64, LockError>(LockError::TtlTooLarge),
{
    if ms <= u64::MAX as u128 {
        Ok(ms as u64)
    } else {
        Err(LockError::TtlTooLarge)
    }
}

} // verus!
