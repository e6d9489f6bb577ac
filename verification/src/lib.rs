//! Client-side distributed mutual exclusion over a set of independent
//! key-value stores.
//!
//! A lock is acquired by writing a unique 20-byte value under the resource
//! key on a strict majority (quorum) of the configured stores within a
//! bounded time window. The verified core holds the decision logic of the
//! scheme: the quorum threshold, the clock-drift allowance, the validity
//! window arithmetic, the per-attempt quorum decision, and the bounded,
//! randomized retry loop. Talking to the stores themselves is I/O and is
//! left to the caller, who fans the per-store commands out, collects one
//! boolean per store, and feeds the outcome back into the engine.

pub mod acquire;
pub mod errors;
pub mod lock;
mod rng;

pub use crate::acquire::Acquisition;
pub use crate::acquire::AttemptOutcome;
pub use crate::acquire::NextStep;
pub use crate::errors::LockError;
pub use crate::lock::Lock;
pub use crate::lock::LockManager;
