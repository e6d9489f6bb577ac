use rslock::acquire::{backoff_delay_ms, count_successes};
use rslock::lock::ttl_millis;
use rslock::{Acquisition, AttemptOutcome, Lock, LockError, LockManager, NextStep};

fn is_normal<T: Sized + Send + Sync + Unpin>() {}

fn three_addresses() -> Vec<String> {
    vec![
        "redis://127.0.0.1:6380".to_string(),
        "redis://127.0.0.1:6381".to_string(),
        "redis://127.0.0.1:6382".to_string(),
    ]
}

#[test]
fn test_is_normal() {
    is_normal::<LockManager>();
    is_normal::<LockError>();
    is_normal::<Lock>();
}

#[test]
fn test_lock_get_unique_id() {
    let rl = LockManager::new(Vec::<String>::new());
    assert_eq!(rl.get_unique_lock_id().len(), 20);
}

#[test]
fn test_lock_get_unique_id_uniqueness() {
    let rl = LockManager::new(Vec::<String>::new());

    let id1 = rl.get_unique_lock_id();
    let id2 = rl.get_unique_lock_id();

    assert_eq!(20, id1.len());
    assert_eq!(20, id2.len());
    assert_ne!(id1, id2);
}

#[test]
fn test_lock_valid_instance() {
    let addresses = three_addresses();

    let rl = LockManager::new(addresses.clone());

    assert_eq!(3, rl.servers.len());
    assert_eq!(2, rl.quorum());
}

#[test]
fn quorum_is_floor_half_plus_one() {
    for (n, q) in [(0, 1), (1, 1), (2, 2), (3, 2), (4, 3), (5, 3), (7, 4)] {
        let uris = vec!["redis://127.0.0.1:6379".to_string(); n];
        let rl = LockManager::new(uris);
        assert_eq!(q, rl.quorum(), "store set of {}", n);
    }
}

#[test]
fn default_retry_policy() {
    let rl = LockManager::new(three_addresses());
    assert_eq!(3, rl.retry_count());
    assert_eq!(200, rl.retry_delay_millis());
}

#[test]
fn set_retry_overrides_policy() {
    let mut rl = LockManager::new(three_addresses());
    rl.set_retry(10, 10);
    assert_eq!(10, rl.retry_count());
    assert_eq!(10, rl.retry_delay_millis());
    assert_eq!(2, rl.quorum());
}

#[test]
fn attempt_with_quorum_yields_exact_validity() {
    let rl = LockManager::new(three_addresses());
    let mut acq = Acquisition::start(&rl, 1000);
    assert_eq!(NextStep::Attempt, acq.next_step());

    // Two of three stores acknowledged; fan-out took 10 ms.
    // drift = 1000 / 100 + 2 = 12, validity = 1000 - 12 - 10 = 978.
    let outcome = acq.record_attempt(&vec![true, true, false], 10);
    assert_eq!(AttemptOutcome::Acquired { validity_ms: 978 }, outcome);
}

#[test]
fn fresh_acquire_validity_stays_near_ttl() {
    let rl = LockManager::new(three_addresses());
    let mut acq = Acquisition::start(&rl, 1000);

    let outcome = acq.record_attempt(&vec![true, true, true], 50);
    match outcome {
        AttemptOutcome::Acquired { validity_ms } => {
            assert!(validity_ms > 900, "validity time: {}", validity_ms);
            assert!(validity_ms < 1000);
        }
        other => panic!("expected an acquisition, got {:?}", other),
    }
}

#[test]
fn sub_quorum_attempts_end_unavailable() {
    // A contender against a held lock, or an extend after a release, sees
    // every honest store refuse: no attempt reaches quorum, and the run
    // ends `Unavailable` once the retry budget is spent.
    let rl = LockManager::new(three_addresses());
    let mut acq = Acquisition::start(&rl, 1000);

    for _ in 0..3 {
        assert_eq!(NextStep::Attempt, acq.next_step());
        let outcome = acq.record_attempt(&vec![false, false, false], 5);
        assert_eq!(AttemptOutcome::Retry { delay_bound_ms: 200 }, outcome);
    }
    assert_eq!(
        NextStep::GiveUp {
            error: LockError::Unavailable
        },
        acq.next_step()
    );
}

#[test]
fn empty_store_set_never_reaches_quorum() {
    // Quorum over zero stores is 1, so even a flawless fan-out (of nothing)
    // falls short and the run retries to exhaustion.
    let rl = LockManager::new(Vec::<String>::new());
    assert_eq!(1, rl.quorum());
    let mut acq = Acquisition::start(&rl, 1000);
    let outcome = acq.record_attempt(&vec![], 5);
    assert_eq!(AttemptOutcome::Retry { delay_bound_ms: 200 }, outcome);
}

#[test]
fn acquire_after_release_succeeds_with_fresh_validity() {
    // Once a lock is released (or its TTL ran out), every store is free
    // again: a later run sees a full quorum and gets a window near the TTL.
    let rl = LockManager::new(three_addresses());

    let mut first = Acquisition::start(&rl, 1000);
    let held = first.record_attempt(&vec![true, true, true], 3);
    assert_eq!(AttemptOutcome::Acquired { validity_ms: 985 }, held);

    let mut second = Acquisition::start(&rl, 1000);
    match second.record_attempt(&vec![true, true, true], 7) {
        AttemptOutcome::Acquired { validity_ms } => assert!(validity_ms > 900),
        other => panic!("expected an acquisition, got {:?}", other),
    }
}

#[test]
fn one_vote_of_three_is_not_quorum() {
    let rl = LockManager::new(three_addresses());
    let mut acq = Acquisition::start(&rl, 1000);
    let outcome = acq.record_attempt(&vec![false, true, false], 5);
    assert_eq!(AttemptOutcome::Retry { delay_bound_ms: 200 }, outcome);
}

#[test]
fn zero_retries_give_up_immediately() {
    let mut rl = LockManager::new(three_addresses());
    rl.set_retry(0, 200);
    let acq = Acquisition::start(&rl, 1000);
    assert_eq!(
        NextStep::GiveUp {
            error: LockError::Unavailable
        },
        acq.next_step()
    );
}

#[test]
fn short_ttl_is_exceeded() {
    // A one-millisecond TTL is consumed by the drift allowance alone:
    // drift = 1 / 100 + 2 = 2 >= 1, whatever the fan-out timing.
    let mut rl = LockManager::new(three_addresses());
    rl.set_retry(10, 10);
    let mut acq = Acquisition::start(&rl, 1);

    let outcome = acq.record_attempt(&vec![true, true, true], 0);
    assert_eq!(
        AttemptOutcome::Fail {
            error: LockError::TtlExceeded,
            rollback_first: false
        },
        outcome
    );
}

#[test]
fn slow_fanout_exceeds_ttl() {
    let rl = LockManager::new(three_addresses());
    let mut acq = Acquisition::start(&rl, 1000);

    // drift = 12, so 988 ms of fan-out leave nothing of a 1000 ms TTL.
    let outcome = acq.record_attempt(&vec![true, true, true], 988);
    assert_eq!(
        AttemptOutcome::Fail {
            error: LockError::TtlExceeded,
            rollback_first: false
        },
        outcome
    );
}

#[test]
fn ttl_conversion_bounds() {
    assert_eq!(Ok(1000), ttl_millis(1000));
    assert_eq!(Ok(u64::MAX), ttl_millis(u64::MAX as u128));
    assert_eq!(
        Err(LockError::TtlTooLarge),
        ttl_millis(u64::MAX as u128 + 1)
    );
    assert_eq!(Err(LockError::TtlTooLarge), ttl_millis(u128::MAX));
}

#[test]
fn oversized_retry_delay_fails_after_rollback() {
    let mut rl = LockManager::new(three_addresses());
    rl.set_retry(3, u64::MAX as u128 + 1);
    let mut acq = Acquisition::start(&rl, 1000);

    let outcome = acq.record_attempt(&vec![false, false, false], 5);
    assert_eq!(
        AttemptOutcome::Fail {
            error: LockError::TtlTooLarge,
            rollback_first: true
        },
        outcome
    );
}

#[test]
fn backoff_delay_is_below_its_bound() {
    assert_eq!(0, backoff_delay_ms(0));
    assert_eq!(0, backoff_delay_ms(1));
    for _ in 0..100 {
        assert!(backoff_delay_ms(10) < 10);
    }
}

#[test]
fn count_successes_counts_true_votes() {
    assert_eq!(0, count_successes(&vec![]));
    assert_eq!(0, count_successes(&vec![false, false]));
    assert_eq!(2, count_successes(&vec![true, false, true]));
    assert_eq!(4, count_successes(&vec![true; 4]));
}

#[test]
fn only_ttl_too_large_stops_a_blocking_acquire() {
    assert!(LockError::Unavailable.should_retry());
    assert!(LockError::TtlExceeded.should_retry());
    assert!(!LockError::TtlTooLarge.should_retry());
}

#[test]
fn acquired_validity_is_within_ttl() {
    // Whatever the timing, a yielded window is strictly between zero and
    // the requested TTL.
    let rl = LockManager::new(three_addresses());
    for (ttl, elapsed) in [(1000u64, 0u64), (1000, 500), (300, 1), (u64::MAX, 12345)] {
        let mut acq = Acquisition::start(&rl, ttl);
        if let AttemptOutcome::Acquired { validity_ms } =
            acq.record_attempt(&vec![true, true, true], elapsed)
        {
            assert!(0 < validity_ms && validity_ms < ttl);
        } else {
            panic!("quorum with a usable window must acquire");
        }
    }
}

#[test]
fn lock_descriptor_carries_its_parts() {
    let rl = LockManager::new(three_addresses());
    let resource = b"a-resource".to_vec();
    let val = rl.get_unique_lock_id();
    let lock = Lock {
        resource: resource.clone(),
        val: val.clone(),
        validity_time: 978,
    };
    assert_eq!(resource, lock.resource);
    assert_eq!(val, lock.val);
    assert_eq!(978, lock.validity_time);
    assert_eq!(20, lock.val.len());
}
