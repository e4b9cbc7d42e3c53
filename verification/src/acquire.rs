//! The resumable acquisition state machine.
//!
//! [`AcquireSlow`] is one contended acquisition attempt. It is driven step by
//! step: each [`AcquireSlow::poll_step`] performs exactly one check of the
//! state word and reports whether the attempt acquired the lock, must wait
//! for a wake before its next step, or can step again at once. The attempt
//! starts in the racy phase; once it has waited past the fairness threshold,
//! or has seen another attempt escalate, it escalates itself — recording one
//! unit in the word's starved count — and from then on runs the fair phase.
//!
//! The bookkeeping invariant of the machine: an escalated attempt carries
//! exactly one unit of the starved count, and [`AcquireSlow::take_mutex`]
//! gives that unit back exactly once — on success and on cancellation alike,
//! no matter at which suspension point the attempt is abandoned. Every
//! mutating operation here carries the ensures clause
//! `final count + old contribution == old count + final contribution`, so the
//! part of the count owed to everyone else is never touched.

use vstd::prelude::*;

use crate::mutex::{Mutex, MutexGuard};
use crate::step::{fair_step, racy_step, FairStep, RacyStep};
use crate::word::{word_claim, word_escalate, word_locked, word_retire, word_starved};

verus! {

/// What one step of the acquisition state machine produced.
pub enum StepResult {
    /// The lock was claimed; the guard is the proof of exclusivity. The
    /// attempt is finished and must not be stepped again.
    Acquired(MutexGuard),
    /// The attempt is registered for a wake and must not step again until
    /// one arrives. If `pass_wake` is set, the lock was free but other
    /// escalated waiters stand in line: the driver first wakes the next
    /// listener to pass the baton along the queue.
    NeedWait { pass_wake: bool },
    /// The attempt can step again at once. If `pass_wake` is set, the wake
    /// that resumed it was almost certainly meant for an escalated waiter:
    /// the driver first wakes the next listener.
    Progress { pass_wake: bool },
}

/// One contended acquisition attempt, resumable at every suspension point.
pub struct AcquireSlow {
    held: bool,
    registered: bool,
    starved: bool,
}

impl AcquireSlow {
    /// Whether the attempt still holds its handle to the mutex (it has
    /// neither succeeded nor been cancelled).
    pub closed spec fn held(&self) -> bool {
        self.held
    }

    /// Whether the attempt is registered with the notifier.
    pub closed spec fn registered(&self) -> bool {
        self.registered
    }

    /// Whether the attempt has escalated into fair mode.
    pub closed spec fn starved(&self) -> bool {
        self.starved
    }

    /// How many units of the word's starved count this attempt owns: one
    /// after it escalates, until its single compensating decrement runs.
    pub open spec fn contribution(&self) -> nat {
        if self.held() && self.starved() {
            1
        } else {
            0
        }
    }

    /// The machine's bookkeeping is consistent with a mutex: whatever this
    /// attempt contributed to the starved count is still recorded there.
    pub open spec fn inv<T>(&self, m: &Mutex<T>) -> bool {
        m.starved() >= self.contribution()
    }

    /// A fresh attempt: handle held, not registered, not escalated.
    pub fn new() -> (a: AcquireSlow)
        ensures
            a.held(),
            !a.registered(),
            !a.starved(),
            a.contribution() == 0,
    {
        AcquireSlow { held: true, registered: false, starved: false }
    }

    /// Consumes the attempt's handle, giving back its unit of the starved
    /// count if it escalated. Runs exactly once whether the attempt won the
    /// lock or was cancelled at any suspension point: afterwards the attempt
    /// contributes nothing, the lock bit and the protected value are
    /// untouched, and everyone else's share of the count is intact.
    pub fn take_mutex<T>(&mut self, m: &mut Mutex<T>) -> (had: bool)
        requires
            old(self).inv(old(m)),
        ensures
            had == old(self).held(),
            !final(self).held(),
            final(self).contribution() == 0,
            final(self).starved() == old(self).starved(),
            final(self).registered() == old(self).registered(),
            final(m).value() == old(m).value(),
            final(m).locked() == old(m).locked(),
            final(m).starved() + old(self).contribution() == old(m).starved()
                + final(self).contribution(),
    {
        let had = self.held;
        self.held = false;
        if had && self.starved {
            m.retire();
        }
        had
    }

    /// One step of the two-phase acquisition protocol: exactly one check of
    /// the state word, classified by the verified decision functions of
    /// [`crate::step`].
    ///
    /// In the racy phase an unregistered attempt registers and races for the
    /// word `0`; a woken one races again and escalates if it sees an
    /// escalated waiter or has waited past the fairness threshold
    /// (`timed_out`). In the fair phase an unregistered attempt registers and
    /// claims only the word `2` — its own escalation and nothing else — and a
    /// woken one sets the lock bit and owns the lock exactly when the word
    /// was free.
    pub fn poll_step<T>(&mut self, m: &mut Mutex<T>, timed_out: bool) -> (r: StepResult)
        requires
            old(self).held(),
            old(self).inv(old(m)),
            old(m).state() + 2 <= usize::MAX,
        ensures
            final(self).inv(final(m)),
            final(m).value() == old(m).value(),
            // The handle is consumed exactly by success.
            final(self).held() == !(r is Acquired),
            // Exclusion: only a free lock is ever claimed, and no step but a
            // successful claim touches the lock bit.
            r is Acquired ==> !old(m).locked() && final(m).locked(),
            !(r is Acquired) ==> final(m).locked() == old(m).locked(),
            // Counter exactness: everyone else's share of the starved count
            // is preserved by every step.
            final(m).starved() + old(self).contribution() == old(m).starved()
                + final(self).contribution(),
            // Racy phase, first check after registering.
            !old(self).starved() && !old(self).registered() ==> {
                &&& final(self).registered()
                &&& old(m).state() == 0 ==> r is Acquired && final(m).state() == word_claim(
                    old(m).state(),
                )
                &&& old(m).state() == 1 ==> (r matches StepResult::NeedWait { pass_wake }
                    && !pass_wake) && final(m).state() == old(m).state() && !final(self).starved()
                &&& old(m).state() >= 2 ==> (r matches StepResult::NeedWait { pass_wake }
                    && !pass_wake) && final(m).state() == word_escalate(old(m).state()) && final(self).starved()
            },
            // Racy phase, check after a wake.
            !old(self).starved() && old(self).registered() ==> {
                &&& !final(self).registered()
                &&& old(m).state() == 0 ==> r is Acquired && final(m).state() == word_claim(
                    old(m).state(),
                )
                &&& old(m).state() >= 2 ==> (r matches StepResult::Progress { pass_wake }
                    && pass_wake) && final(m).state() == word_escalate(old(m).state()) && final(self).starved()
                &&& old(m).state() == 1 && timed_out ==> (r matches StepResult::Progress {
                    pass_wake,
                } && !pass_wake) && final(m).state() == word_escalate(old(m).state()) && final(self).starved()
                &&& old(m).state() == 1 && !timed_out ==> (r matches StepResult::Progress {
                    pass_wake,
                } && !pass_wake) && final(m).state() == old(m).state() && !final(self).starved()
            },
            // Fair phase, first check after registering.
            old(self).starved() && !old(self).registered() ==> {
                &&& final(self).registered()
                &&& final(self).starved()
                &&& old(m).state() == 2 ==> r is Acquired && final(m).state() == word_retire(
                    word_claim(old(m).state()),
                )
                &&& word_locked(old(m).state()) ==> (r matches StepResult::NeedWait { pass_wake }
                    && !pass_wake) && final(m).state() == old(m).state()
                &&& !word_locked(old(m).state()) && old(m).state() != 2 ==> (
                r matches StepResult::NeedWait { pass_wake } && pass_wake) && final(m).state()
                    == old(m).state()
            },
            // Fair phase, check after a wake.
            old(self).starved() && old(self).registered() ==> {
                &&& !final(self).registered()
                &&& final(self).starved()
                &&& !word_locked(old(m).state()) ==> r is Acquired && final(m).state()
                    == word_retire(word_claim(old(m).state()))
                &&& word_locked(old(m).state()) ==> (r matches StepResult::Progress { pass_wake }
                    && !pass_wake) && final(m).state() == old(m).state()
            },
    {
        if !self.starved {
            if !self.registered {
                // Register with the notifier, then race for the free word.
                self.registered = true;
                let observed = m.cas_unlocked_claim();
                match racy_step(observed, false, false) {
                    RacyStep::Acquired => {
                        self.take_mutex(m);
                        StepResult::Acquired(MutexGuard::mint())
                    },
                    RacyStep::Sleep => StepResult::NeedWait { pass_wake: false },
                    RacyStep::Escalate { forward_wake: _ } => {
                        // Somebody already escalated: join the fair queue at
                        // once, keeping the armed listener for the fair wait.
                        m.escalate();
                        self.starved = true;
                        StepResult::NeedWait { pass_wake: false }
                    },
                }
            } else {
                // Just woken: the wake consumed the registration.
                self.registered = false;
                let observed = m.cas_unlocked_claim();
                match racy_step(observed, true, timed_out) {
                    RacyStep::Acquired => {
                        self.take_mutex(m);
                        StepResult::Acquired(MutexGuard::mint())
                    },
                    RacyStep::Sleep => StepResult::Progress { pass_wake: false },
                    RacyStep::Escalate { forward_wake } => {
                        m.escalate();
                        self.starved = true;
                        StepResult::Progress { pass_wake: forward_wake }
                    },
                }
            }
        } else {
            if !self.registered {
                // Register, then claim only our own sole escalation.
                self.registered = true;
                let observed = m.cas_sole_fair_claim();
                match fair_step(observed) {
                    FairStep::Acquired => {
                        self.take_mutex(m);
                        StepResult::Acquired(MutexGuard::mint())
                    },
                    FairStep::Sleep => StepResult::NeedWait { pass_wake: false },
                    FairStep::PassWake => StepResult::NeedWait { pass_wake: true },
                }
            } else {
                // Just woken: set the lock bit; it is ours if it was clear.
                self.registered = false;
                let prior = m.fetch_or_claim();
                if crate::step::fair_wake_acquires(prior) {
                    self.take_mutex(m);
                    StepResult::Acquired(MutexGuard::mint())
                } else {
                    StepResult::Progress { pass_wake: false }
                }
            }
        }
    }
}

/// A whole acquisition: the fast path first, and the state machine only on
/// contention.
///
/// This is the resumable operation behind `lock`: its first poll attempts one
/// fast-path claim, and only if that fails does the acquisition state machine
/// start. Both waiting disciplines — suspending in a scheduler and blocking a
/// thread — drive this same object.
pub struct Lock {
    fast_tried: bool,
    machine: AcquireSlow,
}

impl Lock {
    /// The inner acquisition attempt.
    pub closed spec fn machine(&self) -> AcquireSlow {
        self.machine
    }

    /// Whether the fast path has already been tried.
    pub closed spec fn started(&self) -> bool {
        self.fast_tried
    }

    /// Whether the acquisition has completed; a finished operation must not
    /// be polled again.
    pub open spec fn finished(&self) -> bool {
        !self.machine().held()
    }

    /// How many units of the word's starved count this acquisition owns.
    pub open spec fn contribution(&self) -> nat {
        self.machine().contribution()
    }

    /// The acquisition's bookkeeping is consistent with a mutex.
    pub open spec fn inv<T>(&self, m: &Mutex<T>) -> bool {
        m.starved() >= self.contribution()
    }

    /// Well-formedness: until the fast path has been tried, the machine is
    /// still idle.
    pub open spec fn wf(&self) -> bool {
        !self.started() ==> self.machine().held() && !self.machine().registered()
            && !self.machine().starved()
    }

    /// A fresh acquisition: fast path not yet tried, machine idle.
    pub fn new() -> (l: Lock)
        ensures
            l.wf(),
            !l.started(),
            !l.finished(),
            !l.machine().registered(),
            !l.machine().starved(),
            l.contribution() == 0,
    {
        Lock { fast_tried: false, machine: AcquireSlow::new() }
    }

    /// Drives the acquisition by one step. The first poll makes one fast-path
    /// claim and, when the word was `0`, finishes without ever touching the
    /// state machine; otherwise every poll is exactly one machine step, with
    /// the stepping contract of [`AcquireSlow::poll_step`].
    pub fn poll<T>(&mut self, m: &mut Mutex<T>, timed_out: bool) -> (r: StepResult)
        requires
            !old(self).finished(),
            old(self).wf(),
            old(self).inv(old(m)),
            old(m).state() + 2 <= usize::MAX,
        ensures
            final(self).wf(),
            final(self).inv(final(m)),
            final(self).started(),
            final(m).value() == old(m).value(),
            final(self).finished() == (r is Acquired),
            r is Acquired ==> !old(m).locked() && final(m).locked(),
            !(r is Acquired) ==> final(m).locked() == old(m).locked(),
            final(m).starved() + old(self).contribution() == old(m).starved()
                + final(self).contribution(),
            // First poll: the fast path claims the word `0` outright, and the
            // machine is never started — no escalation and no registration.
            !old(self).started() && old(m).state() == 0 ==> r is Acquired && final(m).state()
                == word_claim(old(m).state()) && !final(self).machine().starved()
                && !final(self).machine().registered(),
            // First poll under contention: one racy-phase machine step.
            !old(self).started() && old(m).state() == 1 ==> (
            r matches StepResult::NeedWait { pass_wake } && !pass_wake) && final(m).state() == old(m).state() && final(self).machine().registered() && !final(self).machine().starved(),
            !old(self).started() && old(m).state() >= 2 ==> (
            r matches StepResult::NeedWait { pass_wake } && !pass_wake) && final(m).state()
                == word_escalate(old(m).state()) && final(self).machine().registered()
                && final(self).machine().starved(),
            // Later polls: exactly one machine step from the machine's state.
            old(self).started() ==> crate::acquire::stepped(
                old(self).machine(),
                *old(m),
                timed_out,
                final(self).machine(),
                *final(m),
                r is Acquired,
                r is NeedWait,
                pass_wake_of(r),
            ),
    {
        if !self.fast_tried {
            self.fast_tried = true;
            match m.try_lock() {
                Some(guard) => {
                    self.machine.take_mutex(m);
                    return StepResult::Acquired(guard);
                },
                None => {},
            }
        }
        self.machine.poll_step(m, timed_out)
    }

    /// Abandons the acquisition, as dropping the pending operation does: runs
    /// the machine's single compensating decrement, leaving the lock bit, the
    /// protected value and everyone else's share of the starved count
    /// untouched. Safe at every suspension point.
    pub fn cancel<T>(&mut self, m: &mut Mutex<T>)
        requires
            old(self).inv(old(m)),
        ensures
            final(self).finished(),
            final(self).contribution() == 0,
            final(m).value() == old(m).value(),
            final(m).locked() == old(m).locked(),
            final(m).starved() + old(self).contribution() == old(m).starved()
                + final(self).contribution(),
    {
        self.machine.take_mutex(m);
    }
}

/// The wake-forwarding decision a step result carries.
pub open spec fn pass_wake_of(r: StepResult) -> bool {
    match r {
        StepResult::Acquired(_) => false,
        StepResult::NeedWait { pass_wake } => pass_wake,
        StepResult::Progress { pass_wake } => pass_wake,
    }
}

/// The exact step relation of the acquisition machine: how one attempt and
/// one word move together in one step. `timed_out` says whether the attempt
/// had waited past the fairness threshold, `acquired` whether the step
/// claimed the lock, `waits` whether the attempt must now wait for a wake,
/// and `pass_wake` whether a wake must first be passed along the queue.
pub open spec fn stepped<T>(
    a0: AcquireSlow,
    m0: Mutex<T>,
    timed_out: bool,
    a1: AcquireSlow,
    m1: Mutex<T>,
    acquired: bool,
    waits: bool,
    pass_wake: bool,
) -> bool {
    let s = m0.state();
    &&& a1.held() == !acquired
    &&& m1.value() == m0.value()
    &&& acquired ==> !waits && !pass_wake
    &&& if !a0.starved() {
        if s == 0 {
            acquired && m1.state() == word_claim(s)
        } else if !a0.registered() {
            // First racy check: stay registered and wait; an observed
            // escalation is joined at once, carrying the armed listener
            // into the fair wait.
            !acquired && waits && !pass_wake && a1.registered() && if s == 1 {
                m1.state() == s && !a1.starved()
            } else {
                m1.state() == word_escalate(s) && a1.starved()
            }
        } else {
            // Woken racy check: the wake consumed the registration, so the
            // machine can step again at once.
            !acquired && !waits && !a1.registered() && if s >= 2 || timed_out {
                // A wake that lands on a racy attempt while somebody is
                // escalated was meant for the fair queue: forward it.
                m1.state() == word_escalate(s) && a1.starved() && pass_wake == (s >= 2)
            } else {
                m1.state() == s && !a1.starved() && !pass_wake
            }
        }
    } else {
        if !a0.registered() {
            if s == 2 {
                acquired && m1.state() == word_retire(word_claim(s))
            } else if word_locked(s) {
                !acquired && waits && !pass_wake && a1.registered() && a1.starved() && m1.state()
                    == s
            } else {
                // The lock is free but the queue is longer than this one
                // attempt: pass the baton instead of racing for it.
                !acquired && waits && pass_wake && a1.registered() && a1.starved() && m1.state()
                    == s
            }
        } else {
            if !word_locked(s) {
                acquired && m1.state() == word_retire(word_claim(s))
            } else {
                !acquired && !waits && !pass_wake && !a1.registered() && a1.starved() && m1.state()
                    == s
            }
        }
    }
}

/// Mutual exclusion across attempts: a step that claims the lock leaves the
/// word locked, so whatever step any attempt makes next — the same one or
/// another — cannot claim it again before a release clears the lock bit.
pub proof fn lemma_no_double_claim<T>(
    a0: AcquireSlow,
    m0: Mutex<T>,
    t0: bool,
    a1: AcquireSlow,
    m1: Mutex<T>,
    w0: bool,
    p0: bool,
    b0: AcquireSlow,
    b1: AcquireSlow,
    m2: Mutex<T>,
    t1: bool,
    acquired: bool,
    w1: bool,
    p1: bool,
)
    requires
        a0.held(),
        a0.inv(&m0),
        stepped(a0, m0, t0, a1, m1, true, w0, p0),
        stepped(b0, m1, t1, b1, m2, acquired, w1, p1),
    ensures
        m1.locked(),
        !acquired,
{
}

/// Counter exactness, one step at a time: every step of one attempt moves the
/// starved count by exactly the change in that attempt's own contribution, so
/// the share recorded for everyone else is untouched; and the attempt's own
/// share stays recorded. With every attempt's contribution ending at zero —
/// which [`AcquireSlow::take_mutex`] guarantees on success and cancellation
/// alike — the count returns to exactly its baseline.
pub proof fn lemma_counter_exact_per_step<T>(
    a0: AcquireSlow,
    m0: Mutex<T>,
    timed_out: bool,
    a1: AcquireSlow,
    m1: Mutex<T>,
    acquired: bool,
    waits: bool,
    pass_wake: bool,
)
    requires
        a0.held(),
        a0.inv(&m0),
        stepped(a0, m0, timed_out, a1, m1, acquired, waits, pass_wake),
    ensures
        m1.starved() + a0.contribution() == m0.starved() + a1.contribution(),
        a1.inv(&m1),
{
}

/// A run of one acquisition attempt: a sequence of machine-and-mutex states
/// in which every consecutive pair is one step of the machine, taken while
/// the attempt still held its handle.
pub open spec fn run_ok<T>(states: Seq<(AcquireSlow, Mutex<T>)>) -> bool {
    forall|i: int|
        0 <= i && i + 1 < states.len() ==> (#[trigger] states[i]).0.held() && exists|
            t: bool,
            acq: bool,
            w: bool,
            p: bool,
        | #[trigger] stepped(states[i].0, states[i].1, t, states[i + 1].0, states[i + 1].1, acq, w, p)
}

/// Counter exactness over a whole run: at every point of any run, the
/// starved count equals its starting value plus the attempt's own current
/// contribution. So however the attempt is driven, and wherever it succeeds
/// or is cancelled, once its contribution has been given back — which
/// [`AcquireSlow::take_mutex`] guarantees — the count stands exactly where
/// it began.
pub proof fn lemma_counter_exact_over_run<T>(states: Seq<(AcquireSlow, Mutex<T>)>, i: int)
    requires
        run_ok(states),
        0 <= i < states.len(),
        states[0].0.inv(&states[0].1),
    ensures
        states[i].1.starved() + states[0].0.contribution() == states[0].1.starved()
            + states[i].0.contribution(),
        states[i].0.inv(&states[i].1),
    decreases i,
{
    if i > 0 {
        lemma_counter_exact_over_run(states, i - 1);
        let (t, acq, w, p) = choose|t: bool, acq: bool, w: bool, p: bool|
            #[trigger] stepped(states[i - 1].0, states[i - 1].1, t, states[i].0, states[i].1, acq, w, p);
        lemma_counter_exact_per_step(states[i - 1].0, states[i - 1].1, t, states[i].0, states[i].1, acq, w, p);
    }
}

/// The total starved-count share owed to a group of attempts.
pub open spec fn total_contribution(attempts: Seq<AcquireSlow>) -> nat
    decreases attempts.len(),
{
    if attempts.len() == 0 {
        0
    } else {
        attempts[0].contribution() + total_contribution(attempts.drop_first())
    }
}

/// No single attempt owns more than the group's total share.
proof fn lemma_total_contribution_bound(attempts: Seq<AcquireSlow>, i: int)
    requires
        0 <= i < attempts.len(),
    ensures
        attempts[i].contribution() <= total_contribution(attempts),
    decreases i,
{
    if i > 0 {
        lemma_total_contribution_bound(attempts.drop_first(), i - 1);
    }
}

/// Replacing one attempt moves the total share by exactly that attempt's own
/// change.
proof fn lemma_total_contribution_update(attempts: Seq<AcquireSlow>, i: int, a: AcquireSlow)
    requires
        0 <= i < attempts.len(),
    ensures
        total_contribution(attempts.update(i, a)) + attempts[i].contribution()
            == total_contribution(attempts) + a.contribution(),
    decreases i,
{
    if i == 0 {
        assert(attempts.update(0, a).drop_first() =~= attempts.drop_first());
    } else {
        lemma_total_contribution_update(attempts.drop_first(), i - 1, a);
        assert(attempts.update(i, a).drop_first() =~= attempts.drop_first().update(i - 1, a));
    }
}

/// A group with nothing left to give back owns no share at all.
proof fn lemma_total_contribution_zero(attempts: Seq<AcquireSlow>)
    requires
        forall|i: int| 0 <= i < attempts.len() ==> (#[trigger] attempts[i]).contribution() == 0,
    ensures
        total_contribution(attempts) == 0,
    decreases attempts.len(),
{
    if attempts.len() > 0 {
        assert forall|i: int|
            0 <= i < attempts.drop_first().len() implies (#[trigger] attempts.drop_first()[i]).contribution()
            == 0 by {
            assert(attempts.drop_first()[i] == attempts[i + 1]);
        }
        lemma_total_contribution_zero(attempts.drop_first());
    }
}

/// Counter exactness over any mix of attempts, as one statement: if the
/// starved count is a baseline plus the total share of a group of in-flight
/// attempts, then any operation by any one of them keeps it so — the
/// hypothesis on the moved attempt is exactly the clause that every mutating
/// operation of the machine ensures ([`AcquireSlow::poll_step`],
/// [`AcquireSlow::take_mutex`], [`Lock::poll`], [`Lock::cancel`]). In
/// particular each escalation's increment is matched by exactly one
/// compensating decrement in that attempt's own completion or cancellation.
pub proof fn lemma_counter_exact_any_mix<T>(
    attempts: Seq<AcquireSlow>,
    m0: Mutex<T>,
    m1: Mutex<T>,
    base: nat,
    i: int,
    a: AcquireSlow,
)
    requires
        m0.starved() == base + total_contribution(attempts),
        0 <= i < attempts.len(),
        m1.starved() + attempts[i].contribution() == m0.starved() + a.contribution(),
    ensures
        m1.starved() == base + total_contribution(attempts.update(i, a)),
        attempts[i].inv(&m0),
{
    lemma_total_contribution_bound(attempts, i);
    lemma_total_contribution_update(attempts, i, a);
}

/// The closure of counter exactness: once every attempt of the group has
/// resolved or been cancelled — its contribution given back, which
/// [`AcquireSlow::take_mutex`] guarantees in every mix and at every
/// suspension point — the starved count stands at exactly its baseline: no
/// phantom escalated waiter remains.
pub proof fn lemma_counter_drains_to_baseline<T>(
    attempts: Seq<AcquireSlow>,
    m: Mutex<T>,
    base: nat,
)
    requires
        m.starved() == base + total_contribution(attempts),
        forall|i: int| 0 <= i < attempts.len() ==> (#[trigger] attempts[i]).contribution() == 0,
    ensures
        m.starved() == base,
{
    lemma_total_contribution_zero(attempts);
}

} // verus!
