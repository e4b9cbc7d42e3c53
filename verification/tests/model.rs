use async_lock::acquire::{AcquireSlow, StepResult};
use async_lock::mutex::Mutex;
use async_lock::step::{fair_step, fair_wake_acquires, racy_step, FairStep, RacyStep};
use async_lock::word::{is_locked, starved_count};

#[test]
fn word_encoding_values() {
    assert!(!is_locked(0));
    assert_eq!(starved_count(0), 0);
    assert!(is_locked(1));
    assert_eq!(starved_count(1), 0);
    assert!(!is_locked(2));
    assert_eq!(starved_count(2), 1);
    assert!(is_locked(3));
    assert_eq!(starved_count(3), 1);
    assert!(is_locked(7));
    assert_eq!(starved_count(7), 3);
}

#[test]
fn racy_classification() {
    assert_eq!(racy_step(0, false, false), RacyStep::Acquired);
    assert_eq!(racy_step(0, true, true), RacyStep::Acquired);
    assert_eq!(racy_step(1, false, false), RacyStep::Sleep);
    assert_eq!(racy_step(1, true, false), RacyStep::Sleep);
    assert_eq!(racy_step(1, true, true), RacyStep::Escalate { forward_wake: false });
    assert_eq!(racy_step(2, false, false), RacyStep::Escalate { forward_wake: false });
    assert_eq!(racy_step(3, true, false), RacyStep::Escalate { forward_wake: true });
}

#[test]
fn fair_classification() {
    assert_eq!(fair_step(2), FairStep::Acquired);
    assert_eq!(fair_step(1), FairStep::Sleep);
    assert_eq!(fair_step(3), FairStep::Sleep);
    assert_eq!(fair_step(0), FairStep::PassWake);
    assert_eq!(fair_step(4), FairStep::PassWake);
    assert!(fair_wake_acquires(0));
    assert!(fair_wake_acquires(2));
    assert!(!fair_wake_acquires(1));
    assert!(!fair_wake_acquires(3));
}

#[test]
fn round_trip_construct_consume() {
    let m = Mutex::new(5u32);
    assert_eq!(m.into_inner(), 5);
}

#[test]
fn guard_mutation_then_try_lock() {
    let mut m = Mutex::new(1u32);
    let a = m.try_lock().expect("fresh mutex is free");
    *m.guard_mut(&a) = 2;
    m.unlock(a);
    let b = m.try_lock().expect("released mutex is free");
    assert_eq!(*m.guard_ref(&b), 2);
    m.unlock(b);
}

#[test]
fn second_claim_fails_while_guard_live() {
    let mut m = Mutex::new(0u8);
    let g = m.try_lock().expect("fresh mutex is free");
    assert!(m.try_lock().is_none());
    assert!(m.is_locked());
    m.unlock(g);
    assert!(!m.is_locked());
}

#[test]
fn bypass_access_with_unique_ownership() {
    let mut m = Mutex::new(0u32);
    *m.get_mut() = 10;
    let g = m.try_lock().expect("fresh mutex is free");
    assert_eq!(*m.guard_ref(&g), 10);
    m.unlock(g);
}

#[test]
fn peek_renders_only_unlocked() {
    let mut m = Mutex::new(9u8);
    assert_eq!(m.peek().copied(), Some(9));
    let g = m.try_lock().expect("fresh mutex is free");
    assert!(m.peek().is_none());
    m.unlock(g);
    assert_eq!(m.peek().copied(), Some(9));
}

#[test]
fn two_attempts_race_lock() {
    let mut m = Mutex::new(0u32);
    let mut first = m.lock();
    let mut second = m.lock();

    // The first poll wins the fast path.
    let g = match first.poll(&mut m, false) {
        StepResult::Acquired(g) => g,
        _ => panic!("the uncontended poll acquires"),
    };

    // The loser registers and must wait; it cannot enter its critical
    // section while the winner's guard is live.
    assert!(matches!(second.poll(&mut m, false), StepResult::NeedWait { pass_wake: false }));
    assert!(m.is_locked());

    // The winner's critical section, then release.
    *m.guard_mut(&g) = 7;
    m.unlock(g);
    assert!(!m.is_locked());

    // Woken after the release, the loser acquires and sees the full update.
    let g2 = match second.poll(&mut m, false) {
        StepResult::Acquired(g2) => g2,
        _ => panic!("the woken attempt acquires the released lock"),
    };
    assert_eq!(*m.guard_ref(&g2), 7);
    m.unlock(g2);
}

#[test]
fn cancelled_escalated_attempt_restores_count() {
    let mut m = Mutex::new(0u8);
    let holder = m.try_lock().expect("fresh mutex is free");

    let mut attempt = AcquireSlow::new();
    // Registers, sees the locked word, waits.
    assert!(matches!(attempt.poll_step(&mut m, false), StepResult::NeedWait { pass_wake: false }));
    // Woken past the fairness threshold: escalates.
    assert!(matches!(attempt.poll_step(&mut m, true), StepResult::Progress { pass_wake: false }));
    assert_eq!(m.starved_waiters(), 1);
    // Registers in the fair queue and waits.
    assert!(matches!(attempt.poll_step(&mut m, false), StepResult::NeedWait { pass_wake: false }));

    // Abandoned mid-wait: the compensating decrement fires exactly once.
    assert!(attempt.take_mutex(&mut m));
    assert_eq!(m.starved_waiters(), 0);
    assert!(!attempt.take_mutex(&mut m));
    assert_eq!(m.starved_waiters(), 0);

    // The state word is intact: the holder still owns the lock and can
    // release it normally.
    assert!(m.is_locked());
    m.unlock(holder);
    assert!(!m.is_locked());
    assert_eq!(m.starved_waiters(), 0);
}

#[test]
fn cancellation_at_every_point_leaves_waiters_live() {
    let mut m = Mutex::new(0u8);
    let holder = m.try_lock().expect("fresh mutex is free");

    // Abandoned at the racy suspension point: nothing to give back.
    let mut racy = AcquireSlow::new();
    racy.poll_step(&mut m, false);
    assert!(racy.take_mutex(&mut m));
    assert_eq!(m.starved_waiters(), 0);

    // Abandoned at the fair suspension point: the escalation is given back.
    let mut fair = AcquireSlow::new();
    fair.poll_step(&mut m, false);
    fair.poll_step(&mut m, true);
    fair.poll_step(&mut m, false);
    assert_eq!(m.starved_waiters(), 1);
    assert!(fair.take_mutex(&mut m));
    assert_eq!(m.starved_waiters(), 0);

    // The remaining holder is not deadlocked and a fresh attempt succeeds.
    m.unlock(holder);
    let mut fresh = m.lock();
    let g = match fresh.poll(&mut m, false) {
        StepResult::Acquired(g) => g,
        _ => panic!("the free lock is acquired at once"),
    };
    m.unlock(g);
}

#[test]
fn escalated_attempt_beats_later_arrivals() {
    let mut m = Mutex::new(0u8);
    let holder = m.try_lock().expect("fresh mutex is free");

    // An old attempt waits past the threshold and escalates.
    let mut old_attempt = AcquireSlow::new();
    old_attempt.poll_step(&mut m, false);
    old_attempt.poll_step(&mut m, true);
    old_attempt.poll_step(&mut m, false);
    assert_eq!(m.starved_waiters(), 1);

    // The lock is released: even now, no later arrival may claim it.
    m.unlock(holder);
    assert!(m.try_lock().is_none());
    let mut late = m.lock();
    assert!(matches!(late.poll(&mut m, false), StepResult::NeedWait { pass_wake: false }));
    assert_eq!(m.starved_waiters(), 2);

    // The escalated attempt is woken and wins.
    let g = match old_attempt.poll_step(&mut m, false) {
        StepResult::Acquired(g) => g,
        _ => panic!("the escalated attempt acquires first"),
    };
    assert!(m.is_locked());
    assert_eq!(m.starved_waiters(), 1);
    m.unlock(g);

    // After the late arrival resolves too, the count is exactly zero.
    late.cancel(&mut m);
    assert_eq!(m.starved_waiters(), 0);
    assert!(!m.is_locked());
}

#[test]
fn fair_queue_passes_the_baton() {
    let mut m = Mutex::new(0u8);
    let holder = m.try_lock().expect("fresh mutex is free");

    // Two attempts escalate behind the holder.
    let mut a = AcquireSlow::new();
    a.poll_step(&mut m, false);
    assert!(matches!(a.poll_step(&mut m, true), StepResult::Progress { pass_wake: false }));
    let mut b = AcquireSlow::new();
    assert!(matches!(b.poll_step(&mut m, false), StepResult::NeedWait { pass_wake: false }));
    assert_eq!(m.starved_waiters(), 2);

    m.unlock(holder);
    assert!(!m.is_locked());

    // The queue is longer than one: a free lock is not raced for; the wake
    // is passed along instead.
    assert!(matches!(a.poll_step(&mut m, false), StepResult::NeedWait { pass_wake: true }));
    assert!(!m.is_locked());
    assert_eq!(m.starved_waiters(), 2);

    // The waiter woken by the passed baton takes the lock.
    let g = match b.poll_step(&mut m, false) {
        StepResult::Acquired(g) => g,
        _ => panic!("the woken fair attempt acquires"),
    };
    assert_eq!(m.starved_waiters(), 1);
    m.unlock(g);

    // The remaining fair waiter wins in turn, and the count drains to zero.
    let g2 = match a.poll_step(&mut m, false) {
        StepResult::Acquired(g2) => g2,
        _ => panic!("the remaining fair attempt acquires"),
    };
    assert_eq!(m.starved_waiters(), 0);
    m.unlock(g2);
    assert!(!m.is_locked());
}

#[test]
fn thousand_attempts_each_increment_once() {
    let mut m = Mutex::new(0u32);
    for _ in 0..1000 {
        let mut op = m.lock();
        let g = match op.poll(&mut m, false) {
            StepResult::Acquired(g) => g,
            _ => panic!("the uncontended poll acquires"),
        };
        let v = *m.guard_ref(&g);
        *m.guard_mut(&g) = v + 1;
        m.unlock(g);
    }
    assert_eq!(m.into_inner(), 1000);
}
