//! The runtime shell: the verified protocol over a real atomic word.
//!
//! [`RawMutex`] holds the state word in an atomic and waits through the
//! notifier of the `event_listener` crate. The value an atomic operation
//! returns depends on every thread in the process, so nothing can be promised
//! about it here; what the shell does with each observed value is decided
//! exclusively by the verified classification functions of [`crate::step`],
//! the same ones the verified state machine of [`crate::acquire`] is proved
//! against. Suspension-based waiting over the identical protocol lives
//! outside the verified library, in the async facade.

use vstd::prelude::*;

use core::sync::atomic::{AtomicUsize, Ordering};
use std::sync::Arc;

use event_listener::{Event, EventListener, Listener};

use crate::step::{fair_step, racy_step, FairStep, RacyStep, FAIRNESS_THRESHOLD_MICROS};

verus! {

#[verifier::external_type_specification]
#[verifier::external_body]
#[verifier::reject_recursive_types(T)]
pub struct ExEvent<T>(Event<T>);

#[verifier::external_type_specification]
#[verifier::external_body]
#[verifier::reject_recursive_types(T)]
pub struct ExEventListener<T>(EventListener<T>);

#[verifier::external_type_specification]
#[verifier::external_body]
pub struct ExInstant(std::time::Instant);

/// Relies on `event_listener::Event::new`: a fresh notifier with no
/// registered listeners.
#[verifier::external_body]
fn event_new() -> Event {
    Event::new()
}

/// Relies on `event_listener::Event::listen`: registers a listener that
/// observes every wake issued from this point on (a wake issued after
/// registration and before the listener is consumed is never missed).
#[verifier::external_body]
fn event_listen(ev: &Event) -> EventListener {
    ev.listen()
}

/// Relies on `event_listener::Event::notify`: wakes at most one registered
/// listener, the first in registration order — never all of them.
#[verifier::external_body]
fn event_notify_one(ev: &Event) {
    ev.notify(1);
}

/// Relies on `event_listener::Listener::wait`: blocks the calling thread
/// until the listener receives a notification, consuming the registration.
#[verifier::external_body]
fn listener_wait(listener: EventListener) {
    listener.wait();
}

/// Relies on `std::time::Instant::now`: a reading of a monotonic clock;
/// nothing is assumed of its value.
#[verifier::external_body]
fn instant_now() -> std::time::Instant {
    std::time::Instant::now()
}

/// Relies on `std::time::Instant::elapsed`: the time since `start`.
#[verifier::external_body]
fn instant_elapsed(start: &std::time::Instant) -> std::time::Duration {
    start.elapsed()
}

/// Relies on `std::time::Duration::as_micros`: the duration in whole
/// microseconds.
#[verifier::external_body]
fn duration_as_micros(d: &std::time::Duration) -> u128 {
    d.as_micros()
}

/// Relies on `Arc::clone`: a second handle to the same allocation, so its
/// view is the view of the handle it was cloned from.
#[verifier::external_body]
fn arc_clone(mutex: &Arc<RawMutex>) -> (r: Arc<RawMutex>)
    ensures
        r == *mutex,
{
    Arc::clone(mutex)
}

/// A borrowing guard of the runtime shell: proof that its holder owns the
/// lock, minted only by a claim of the lock bit and consumed by
/// [`RawGuard::unlock`].
pub struct RawGuard<'a> {
    mutex: &'a RawMutex,
}

impl<'a> RawGuard<'a> {
    /// The lock this guard came from: the one whose lock bit its claim set
    /// and whose word its release will clear.
    pub closed spec fn of(&self) -> RawMutex {
        *self.mutex
    }

    /// Returns a reference to the lock this guard came from.
    pub fn source(guard: &RawGuard<'a>) -> (r: &'a RawMutex)
        ensures
            *r == guard.of(),
    {
        guard.mutex
    }

    /// Releases the lock, consuming the guard: clears the lock bit with a
    /// release store and wakes exactly one waiter, which either takes the
    /// lock or forwards the wake.
    pub fn unlock(self) {
        let RawGuard { mutex } = self;
        mutex.release_and_wake();
    }
}

/// An owning guard of the runtime shell: like [`RawGuard`], but holding a
/// shared-ownership handle to the lock, so it can outlive the call frame
/// that acquired it.
pub struct RawGuardArc {
    mutex: Arc<RawMutex>,
}

impl RawGuardArc {
    /// The handle this guard came from: the one whose lock bit its claim set
    /// and whose word its release will clear.
    pub closed spec fn handle(&self) -> Arc<RawMutex> {
        self.mutex
    }

    /// Returns a reference to the handle of the lock this guard came from.
    pub fn source(guard: &RawGuardArc) -> (r: &Arc<RawMutex>)
        ensures
            *r == guard.handle(),
    {
        &guard.mutex
    }

    /// Releases the lock, consuming the guard, as [`RawGuard::unlock`] does.
    pub fn unlock(self) {
        let RawGuardArc { mutex } = self;
        mutex.release_and_wake();
    }
}

/// The runtime lock word and its notifier.
///
/// Shared state is outside what the verifier can see, so the functions here
/// carry no promises about the word; their correctness rests on the verified
/// decision functions they call and on the verified state machine those same
/// functions drive.
pub struct RawMutex {
    state: AtomicUsize,
    lock_ops: Event,
}

impl RawMutex {
    /// A fresh, unlocked runtime lock with no escalated waiters.
    pub fn new() -> RawMutex {
        RawMutex { state: AtomicUsize::new(0), lock_ops: event_new() }
    }

    /// One compare-and-swap of the word from `0` to `1`, returning the word
    /// it observed.
    fn cas_unlocked_claim(&self) -> usize {
        match self.state.compare_exchange(0, 1, Ordering::Acquire, Ordering::Acquire) {
            Ok(_) => 0,
            Err(v) => v,
        }
    }

    /// The fast path: one attempt to claim the lock, succeeding exactly when
    /// the word is `0`. Never waits. A returned guard is a guard of this very
    /// lock.
    pub fn try_lock(&self) -> (r: Option<RawGuard<'_>>)
        ensures
            r matches Some(g) ==> g.of() == *self,
    {
        let observed = self.cas_unlocked_claim();
        if observed == 0 {
            Some(RawGuard { mutex: self })
        } else {
            None
        }
    }

    /// The fast path through a shared-ownership handle. A returned guard
    /// holds the very handle it was claimed through.
    pub fn try_lock_arc(mutex: &Arc<RawMutex>) -> (r: Option<RawGuardArc>)
        ensures
            r matches Some(g) ==> g.handle() == *mutex,
    {
        let observed = mutex.cas_unlocked_claim();
        if observed == 0 {
            Some(RawGuardArc { mutex: arc_clone(mutex) })
        } else {
            None
        }
    }

    /// The release step behind guard destruction: clears the lock bit with a
    /// release store and wakes one waiter.
    fn release_and_wake(&self) {
        self.state.fetch_sub(1, Ordering::Release);
        event_notify_one(&self.lock_ops);
    }

    /// Whether this attempt has been pending longer than the fairness
    /// threshold.
    fn timed_out(start: &std::time::Instant) -> bool {
        let elapsed = instant_elapsed(start);
        duration_as_micros(&elapsed) > FAIRNESS_THRESHOLD_MICROS
    }

    /// The completion step of a won acquisition: gives back the escalation
    /// unit if this attempt had escalated.
    fn finish(&self, starved: bool) -> bool {
        if starved {
            self.state.fetch_sub(2, Ordering::Release);
        }
        true
    }

    /// Acquires the lock, blocking the calling thread until it is granted.
    ///
    /// Runs the two-phase protocol: the fast path, then the racy loop, then —
    /// after waiting past the fairness threshold or observing an escalated
    /// waiter — escalation and the fair loop. Every decision is made by the
    /// verified classifiers of [`crate::step`].
    ///
    /// Returns `None` only on the unrecoverable safety valve: the escalation
    /// count reached half the word's range, or the acquisition exhausted its
    /// wake budget (the explicit termination bound of the protocol loop, one
    /// count per wake, unreachable in practice). Callers must treat `None` as
    /// fatal and terminate rather than risk a corrupted protocol state. Must
    /// not be called from a thread that also drives suspension-based waiters,
    /// or those may deadlock.
    pub fn lock_blocking(&self) -> (r: Option<RawGuard<'_>>)
        ensures
            r matches Some(g) ==> g.of() == *self,
    {
        if self.acquire_blocking() {
            Some(RawGuard { mutex: self })
        } else {
            None
        }
    }

    /// [`RawMutex::lock_blocking`] through a shared-ownership handle. A
    /// returned guard holds the very handle it was claimed through.
    pub fn lock_arc_blocking(mutex: &Arc<RawMutex>) -> (r: Option<RawGuardArc>)
        ensures
            r matches Some(g) ==> g.handle() == *mutex,
    {
        if mutex.acquire_blocking() {
            Some(RawGuardArc { mutex: arc_clone(mutex) })
        } else {
            None
        }
    }

    /// The blocking acquisition itself; reports whether the lock was won.
    fn acquire_blocking(&self) -> bool {
        if self.cas_unlocked_claim() == 0 {
            return true;
        }
        let start = instant_now();
        let mut listener: Option<EventListener> = None;
        let mut starved = false;
        let mut budget: usize = usize::MAX;

        while budget > 0
            decreases budget,
        {
            budget = budget - 1;
            if !starved {
                // The racy phase: register, race for the free word, sleep,
                // race again; escalate when the classifier says so.
                if listener.is_none() {
                    listener = Some(event_listen(&self.lock_ops));
                    let observed = self.cas_unlocked_claim();
                    match racy_step(observed, false, false) {
                        RacyStep::Acquired => {
                            return self.finish(false);
                        },
                        RacyStep::Sleep => {},
                        RacyStep::Escalate { forward_wake: _ } => {
                            // Keep the armed listener: the fair phase's first
                            // wait uses it.
                            if !self.escalate() {
                                return false;
                            }
                            starved = true;
                        },
                    }
                } else {
                    let armed = listener.take().unwrap();
                    listener_wait(armed);
                    let observed = self.cas_unlocked_claim();
                    match racy_step(observed, true, Self::timed_out(&start)) {
                        RacyStep::Acquired => {
                            return self.finish(false);
                        },
                        RacyStep::Sleep => {},
                        RacyStep::Escalate { forward_wake } => {
                            if forward_wake {
                                event_notify_one(&self.lock_ops);
                            }
                            if !self.escalate() {
                                return false;
                            }
                            starved = true;
                        },
                    }
                }
            } else {
                // The fair phase: claim only the word that shows this
                // attempt's own escalation and nothing else; after a wake,
                // take the lock bit if it is clear.
                if listener.is_none() {
                    listener = Some(event_listen(&self.lock_ops));
                    let observed = match self.state.compare_exchange(
                        2,
                        3,
                        Ordering::Acquire,
                        Ordering::Acquire,
                    ) {
                        Ok(_) => 2,
                        Err(v) => v,
                    };
                    match fair_step(observed) {
                        FairStep::Acquired => {
                            return self.finish(true);
                        },
                        FairStep::Sleep => {},
                        FairStep::PassWake => {
                            // Be fair: pass the baton and wait in line.
                            event_notify_one(&self.lock_ops);
                        },
                    }
                } else {
                    let armed = listener.take().unwrap();
                    listener_wait(armed);
                    let prior = self.state.fetch_or(1, Ordering::Acquire);
                    if crate::step::fair_wake_acquires(prior) {
                        return self.finish(true);
                    }
                }
            }
        }
        false
    }

    /// The escalation step: records one more starved waiter with a release
    /// ordering, and reports whether the count stayed inside the safe half of
    /// the word's range.
    fn escalate(&self) -> bool {
        let prior = self.state.fetch_add(2, Ordering::Release);
        prior <= usize::MAX / 2
    }
}

} // verus!
