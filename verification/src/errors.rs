use vstd::prelude::*;

verus! {

/// The failures the locking surface reports.
///
/// Per-store connection and protocol failures never surface directly: a
/// store that cannot be reached, or that answers with anything but an
/// acknowledgement, merely counts as one failed vote in the quorum decision.
#[derive(Clone, Copy, Debug, PartialEq, Eq, Structural)]
pub enum LockError {
    /// The retry budget ran out without ever reaching a quorum of stores.
    Unavailable,
    /// The clock ran past the usable part of the requested TTL while the
    /// fan-out was in flight.
    TtlExceeded,
    /// The requested TTL does not fit the store wire encoding.
    TtlTooLarge,
}

impl LockError {
    /// A blocking acquire keeps looping on every failure except
    /// `TtlTooLarge`, which no amount of retrying can mend.
    pub fn should_retry(&self) -> (r: bool)
        ensures
            r <==> *self != LockError::TtlTooLarge,
    {
        match self {
            LockError::TtlTooLarge => false,
            _ => true,
        }
    }
}

} // verus!
