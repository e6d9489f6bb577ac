use vstd::prelude::*;
use crate::errors::LockError;
use crate::lock::LockManager;

verus! {

/// Milliseconds of clock drift budgeted for one attempt: one percent of the
/// requested TTL, plus a two-millisecond floor.
pub open spec fn drift_millis(ttl_ms: int) -> int {
    ttl_ms / 100 + 2
}

/// The validity window left after one attempt: the requested TTL minus the
/// drift allowance minus the wall-clock time the fan-out took.
pub open spec fn validity_millis(ttl_ms: int, elapsed_ms: int) -> int {
    ttl_ms - drift_millis(ttl_ms) - elapsed_ms
}

/// How many stores of a fan-out answered with success.
pub open spec fn count_true(s: Seq<bool>) -> int
    decreases s.len(),
{
    if s.len() == 0 {
        0
    } else {
        count_true(s.drop_last()) + if s.last() {
            1int
        } else {
            0int
        }
    }
}

/// What one attempt decides.
#[derive(Clone, Copy, Debug, PartialEq, Eq, Structural)]
pub enum AttemptOutcome {
    /// Quorum was reached inside the usable window: the caller holds the
    /// lock for `validity_ms` milliseconds.
    Acquired { validity_ms: u64 },
    /// The run ends now with `error`. When `rollback_first` is set, the
    /// caller first issues a best-effort release on every store.
    Fail { error: LockError, rollback_first: bool },
    /// No quorum: release every store, pause a random number of
    /// milliseconds below `delay_bound_ms` (zero meaning no pause), and
    /// attempt again.
    Retry { delay_bound_ms: u64 },
}

/// What an acquisition run owes next: another fan-out attempt, or the end
/// of the run.
#[derive(Clone, Copy, Debug, PartialEq, Eq, Structural)]
pub enum NextStep {
    /// Fan the per-store operation out to every store and feed the results
    /// back into the engine.
    Attempt,
    /// The retry budget is spent: the run ends with `error`.
    GiveUp { error: LockError },
}

/// The decision one attempt comes to, as a function of the quorum
/// threshold, the retry delay, the requested TTL, the number of stores
/// that acknowledged, and the wall-clock milliseconds the fan-out took.
///
/// In order: a TTL that the drift allowance and the elapsed time have
/// already consumed ends the run at once, with no rollback (the lock could
/// not be useful even if held). A quorum inside a positive window yields
/// the lock. Otherwise every store is rolled back; then a retry delay too
/// wide for the wire width ends the run, and anything else is another
/// attempt after a randomized pause.
pub open spec fn decision(
    quorum: int,
    retry_delay_ms: int,
    ttl_ms: int,
    n_ok: int,
    elapsed_ms: int,
) -> AttemptOutcome {
    if ttl_ms <= drift_millis(ttl_ms) + elapsed_ms {
        AttemptOutcome::Fail { error: LockError::TtlExceeded, rollback_first: false }
    } else if n_ok >= quorum && validity_millis(ttl_ms, elapsed_ms) > 0 {
        AttemptOutcome::Acquired { validity_ms: validity_millis(ttl_ms, elapsed_ms) as u64 }
    } else if retry_delay_ms > u64::MAX {
        AttemptOutcome::Fail { error: LockError::TtlTooLarge, rollback_first: true }
    } else {
        AttemptOutcome::Retry { delay_bound_ms: retry_delay_ms as u64 }
    }
}

/// One run of the acquisition engine: a bounded series of fan-out attempts
/// over a fixed store set, quorum and TTL. The same engine drives a fresh
/// acquisition and an extension; only the per-store operation the caller
/// fans out differs.
pub struct Acquisition {
    /// The number of stores whose acknowledgement an attempt needs.
    pub quorum: usize,
    /// How many attempts this run may make in all.
    pub retry_count: u32,
    /// The base, in milliseconds, of the randomized pause between attempts.
    pub retry_delay_ms: u128,
    /// The TTL, in milliseconds, requested from every store.
    pub ttl_ms: u64,
    /// How many attempts have been fed back so far.
    pub attempts_done: u32,
}

impl Acquisition {
    /// Starts one engine run for `ttl_ms` under the manager's store set and
    /// retry policy. No attempt has been made yet.
    pub fn start(mgr: &LockManager, ttl_ms: u64) -> (acq: Acquisition)
        ensures
            acq.quorum == mgr.quorum_spec(),
            acq.retry_count == mgr.retry_count_spec(),
            acq.retry_delay_ms == mgr.retry_delay_spec(),
            acq.ttl_ms == ttl_ms,
            acq.attempts_done == 0,
    {
        Acquisition {
            quorum: mgr.quorum(),
            retry_count: mgr.retry_count(),
            retry_delay_ms: mgr.retry_delay_millis(),
            ttl_ms,
            attempts_done: 0,
        }
    }

    /// Whether another fan-out attempt is owed, or the run ends: a run
    /// whose retry budget is spent without an acquisition is `Unavailable`.
    pub fn next_step(&self) -> (step: NextStep)
        ensures
            self.attempts_done < self.retry_count ==> step == NextStep::Attempt,
            self.attempts_done >= self.retry_count ==> step == (NextStep::GiveUp {
                error: LockError::Unavailable,
            }),
    {
        if self.attempts_done < self.retry_count {
            NextStep::Attempt
        } else {
            NextStep::GiveUp { error: LockError::Unavailable }
        }
    }

    /// Judges one completed fan-out: one boolean per store, and the
    /// wall-clock milliseconds the fan-out took. The outcome is exactly
    /// `decision` over the run's parameters; a lock is only ever yielded
    /// with a validity window strictly between zero and the requested TTL.
    pub fn record_attempt(&mut self, results: &Vec<bool>, elapsed_ms: u64) -> (outcome:
        AttemptOutcome)
        requires
            old(self).attempts_done < old(self).retry_count,
        ensures
            outcome == decision(
                old(self).quorum as int,
                old(self).retry_delay_ms as int,
                old(self).ttl_ms as int,
                count_true(results@),
                elapsed_ms as int,
            ),
            outcome matches AttemptOutcome::Acquired { validity_ms } ==> 0 < validity_ms < old(
                self,
            ).ttl_ms,
            final(self).attempts_done == old(self).attempts_done + 1,
            final(self).quorum == old(self).quorum,
            final(self).retry_count == old(self).retry_count,
            final(self).retry_delay_ms == old(self).retry_delay_ms,
            final(self).ttl_ms == old(self).ttl_ms,
    {
        let n_ok = count_successes(results);
        let drift: u64 = self.ttl_ms / 100 + 2;
        self.attempts_done = self.attempts_done + 1;
        if self.ttl_ms as u128 <= drift as u128 + elapsed_ms as u128 {
            return AttemptOutcome::Fail { error: LockError::TtlExceeded, rollback_first: false };
        }
        let validity_ms: u64 = self.ttl_ms - drift - elapsed_ms;
        if n_ok >= self.quorum && validity_ms > 0 {
            return AttemptOutcome::Acquired { validity_ms };
        }
        if self.retry_delay_ms > u64::MAX as u128 {
            return AttemptOutcome::Fail { error: LockError::TtlTooLarge, rollback_first: true };
        }
        AttemptOutcome::Retry { delay_bound_ms: self.retry_delay_ms as u64 }
    }
}

/// Counts the stores that reported success in one fan-out.
pub fn count_successes(results: &Vec<bool>) -> (n: usize)
    ensures
        n == count_true(results@),
{
    let mut n: usize = 0;
    let mut i: usize = 0;
    while i < results.len()
        invariant
            i <= results@.len(),
            n <= i,
            n == count_true(results@.take(i as int)),
        decreases results@.len() - i,
    {
        proof {
            lemma_count_true_take_step(results@, i as int);
        }
        if results[i] {
            n = n + 1;
        }
        i = i + 1;
    }
    proof {
        assert(results@.take(results@.len() as int) =~= results@);
    }
    n
}

/// Draws the randomized pause before the next attempt: uniform below
/// `bound_ms`, and zero when `bound_ms` is zero (no pause).
pub fn backoff_delay_ms(bound_ms: u64) -> (d: u64)
    ensures
        bound_ms == 0 ==> d == 0,
        bound_ms > 0 ==> d < bound_ms,
{
    if bound_ms == 0 {
        0
    } else {
        crate::rng::random_below(bound_ms)
    }
}

/// Appending one store's answer to a fan-out prefix raises the success
/// count by one exactly when that answer was a success.
proof fn lemma_count_true_take_step(s: Seq<bool>, i: int)
    requires
        0 <= i < s.len(),
    ensures
        count_true(s.take(i + 1)) == count_true(s.take(i)) + if s[i] {
            1int
        } else {
            0int
        },
{
    assert(s.take(i + 1).drop_last() =~= s.take(i));
    assert(s.take(i + 1).last() == s[i]);
}

/// A quorum is a strict majority: two quorums over the same store set must
/// share a store. Since a store holds one value per key, two managers can
/// never both reach quorum for the same resource at once while the stores
/// are honest and reachable.
pub proof fn lemma_quorum_is_majority(n: int)
    requires
        0 <= n,
    ensures
        2 * crate::lock::quorum_of(n) > n,
{
}

/// An attempt that fewer than a quorum of stores acknowledged never yields
/// the lock, whatever the timing. This is the step behind a contender
/// failing while another manager holds the resource, and behind an extend
/// failing once the lock was released: in both, every honest store refuses,
/// so the count stays below quorum.
pub proof fn lemma_sub_quorum_never_acquires(
    quorum: int,
    retry_delay_ms: int,
    ttl_ms: int,
    n_ok: int,
    elapsed_ms: int,
)
    requires
        n_ok < quorum,
    ensures
        !(decision(quorum, retry_delay_ms, ttl_ms, n_ok, elapsed_ms) is Acquired),
{
}

/// When at least a quorum of stores acknowledged and the drift allowance
/// plus the elapsed time left part of the TTL unspent, the attempt
/// acquires, with exactly the remaining window. This is the step behind a
/// fresh acquisition succeeding after a release, or after the previous
/// holder's TTL ran out: every store is free again and acknowledges.
pub proof fn lemma_quorum_acquires(
    quorum: int,
    retry_delay_ms: int,
    ttl_ms: int,
    n_ok: int,
    elapsed_ms: int,
)
    requires
        n_ok >= quorum,
        0 <= elapsed_ms,
        drift_millis(ttl_ms) + elapsed_ms < ttl_ms,
        ttl_ms <= u64::MAX,
    ensures
        decision(quorum, retry_delay_ms, ttl_ms, n_ok, elapsed_ms) == (AttemptOutcome::Acquired {
            validity_ms: validity_millis(ttl_ms, elapsed_ms) as u64,
        }),
{
}

/// The result of an engine run that made exactly the fan-out attempts in
/// `history` — one `(n_ok, elapsed_ms)` pair per attempt, oldest first —
/// and then had no retry budget left. This is the decision content of one
/// whole acquisition or extension: what `next_step` and `record_attempt`
/// hand a caller who feeds every fan-out back until the run ends.
pub open spec fn run_outcome(
    quorum: int,
    retry_delay_ms: int,
    ttl_ms: int,
    history: Seq<(int, int)>,
) -> Result<u64, LockError>
    decreases history.len(),
{
    if history.len() == 0 {
        Err(LockError::Unavailable)
    } else {
        match decision(quorum, retry_delay_ms, ttl_ms, history.first().0, history.first().1) {
            AttemptOutcome::Acquired { validity_ms } => Ok(validity_ms),
            AttemptOutcome::Fail { error, .. } => Err(error),
            AttemptOutcome::Retry { .. } => run_outcome(
                quorum,
                retry_delay_ms,
                ttl_ms,
                history.drop_first(),
            ),
        }
    }
}

/// A run whose every fan-out fell short of quorum ends `Unavailable`, as
/// long as no attempt trips over the TTL (the drift allowance and the
/// elapsed time leave part of it unspent) and the retry delay fits the
/// wire width. This is what a released or expired lock's `extend` run, and
/// a contender's run against a held lock, come to: every honest store
/// refuses, so no attempt ever reaches quorum.
pub proof fn lemma_starved_run_is_unavailable(
    quorum: int,
    retry_delay_ms: int,
    ttl_ms: int,
    history: Seq<(int, int)>,
)
    requires
        0 <= retry_delay_ms <= u64::MAX,
        forall|i: int| 0 <= i < history.len() ==> #[trigger] history[i].0 < quorum,
        forall|i: int|
            0 <= i < history.len() ==> drift_millis(ttl_ms) + #[trigger] history[i].1 < ttl_ms,
    ensures
        run_outcome(quorum, retry_delay_ms, ttl_ms, history) == Err::<u64, LockError>(
            LockError::Unavailable,
        ),
    decreases history.len(),
{
    if history.len() > 0 {
        assert(history[0].0 < quorum);
        assert(drift_millis(ttl_ms) + history[0].1 < ttl_ms);
        assert(decision(quorum, retry_delay_ms, ttl_ms, history.first().0, history.first().1)
            is Retry);
        assert forall|i: int| 0 <= i < history.drop_first().len() implies #[trigger] history.drop_first()[i].0
            < quorum by {
            assert(history.drop_first()[i] == history[i + 1]);
        }
        assert forall|i: int| 0 <= i < history.drop_first().len() implies drift_millis(ttl_ms)
            + #[trigger] history.drop_first()[i].1 < ttl_ms by {
            assert(history.drop_first()[i] == history[i + 1]);
        }
        lemma_starved_run_is_unavailable(quorum, retry_delay_ms, ttl_ms, history.drop_first());
    }
}

/// A lock is only ever yielded with a validity window strictly between
/// zero and the requested TTL.
pub proof fn lemma_validity_window(
    quorum: int,
    retry_delay_ms: int,
    ttl_ms: int,
    n_ok: int,
    elapsed_ms: int,
)
    requires
        0 <= elapsed_ms,
        0 <= ttl_ms <= u64::MAX,
    ensures
        decision(quorum, retry_delay_ms, ttl_ms, n_ok, elapsed_ms) matches AttemptOutcome::Acquired {
            validity_ms,
        } ==> 0 < validity_ms < ttl_ms,
{
}

} // verus!
