//! A value-carrying mutex over the verified protocol.
//!
//! The mutex owns one state word and the protected value. A successful claim
//! of the lock bit mints a [`MutexGuard`], the sole proof of exclusivity:
//! every access to the protected value demands a guard (or unique ownership
//! of the mutex itself), and releasing the lock consumes the guard. Guards
//! are minted only by the claiming operations in this crate, each of which
//! flips the lock bit from clear to set, so at most one guard is live per
//! mutex at any instant.

use vstd::prelude::*;

use crate::word::{word_claim, word_escalate, word_locked, word_release, word_retire, word_starved};

verus! {

/// A scope-bound exclusivity token: proof that its holder owns the lock.
///
/// Only the claiming operations of this crate mint one, and [`Mutex::unlock`]
/// consumes it.
pub struct MutexGuard {
    _witness: (),
}

impl MutexGuard {
    /// Mints the exclusivity token for a claim that set the lock bit.
    pub(crate) fn mint() -> MutexGuard {
        MutexGuard { _witness: () }
    }
}

/// A mutual-exclusion primitive protecting one value.
pub struct Mutex<T> {
    word: usize,
    data: T,
}

impl<T> Mutex<T> {
    /// The state word: lock bit plus escalation count.
    pub closed spec fn state(&self) -> nat {
        self.word as nat
    }

    /// The protected value.
    pub closed spec fn value(&self) -> T {
        self.data
    }

    /// Whether the lock is held.
    pub open spec fn locked(&self) -> bool {
        word_locked(self.state())
    }

    /// How many acquisition attempts have escalated into fair mode.
    pub open spec fn starved(&self) -> nat {
        word_starved(self.state())
    }

    /// Reads whether the lock is held.
    pub fn is_locked(&self) -> (r: bool)
        ensures
            r == self.locked(),
    {
        crate::word::is_locked(self.word)
    }

    /// Reads how many acquisition attempts currently hold an escalation unit.
    pub fn starved_waiters(&self) -> (r: usize)
        ensures
            r as nat == self.starved(),
    {
        crate::word::starved_count(self.word)
    }

    /// Creates a mutex protecting `data`: unlocked, with no escalated
    /// waiters.
    pub fn new(data: T) -> (m: Mutex<T>)
        ensures
            m.state() == 0,
            m.value() == data,
    {
        Mutex { word: 0, data }
    }

    /// Consumes the mutex, returning the protected value. Demands that no
    /// guard is outstanding.
    pub fn into_inner(self) -> (r: T)
        requires
            !self.locked(),
        ensures
            r == self.value(),
    {
        self.data
    }

    /// The fast path: one attempt to claim the lock, succeeding exactly when
    /// the word is `0` — never while the lock is held, and never while any
    /// escalated waiter is recorded, so the fast path cannot starve the fair
    /// queue. Never waits; returns the guard on success and nothing
    /// otherwise.
    pub fn try_lock(&mut self) -> (r: Option<MutexGuard>)
        ensures
            final(self).value() == old(self).value(),
            r is Some <==> old(self).state() == 0,
            r is Some ==> final(self).state() == word_claim(old(self).state()),
            r is None ==> final(self).state() == old(self).state(),
    {
        if self.word == 0 {
            self.word = 1;
            Some(MutexGuard::mint())
        } else {
            None
        }
    }

    /// Releases the lock, consuming the guard: clears the lock bit and leaves
    /// the escalation count and the protected value untouched. The runtime
    /// shell follows every release with a single wake, never a broadcast, so
    /// the woken waiter either takes the lock or forwards the wake.
    pub fn unlock(&mut self, guard: MutexGuard)
        requires
            old(self).locked(),
        ensures
            final(self).state() == word_release(old(self).state()),
            !final(self).locked(),
            final(self).starved() == old(self).starved(),
            final(self).value() == old(self).value(),
    {
        let MutexGuard { _witness } = guard;
        self.word = self.word - 1;
    }

    /// Reads the protected value through a live guard.
    pub fn guard_ref<'a>(&'a self, guard: &MutexGuard) -> (r: &'a T)
        requires
            self.locked(),
        ensures
            *r == self.value(),
    {
        let _ = guard;
        &self.data
    }

    /// Writes the protected value through a live guard.
    pub fn guard_mut<'a>(&'a mut self, guard: &MutexGuard) -> (r: &'a mut T)
        requires
            old(self).locked(),
        ensures
            *r == old(self).value(),
            final(self).value() == *final(r),
            final(self).state() == old(self).state(),
    {
        let _ = guard;
        &mut self.data
    }

    /// Direct access to the protected value, bypassing the lock protocol.
    /// Sound only because it demands exclusive ownership of the mutex handle
    /// and that no guard is outstanding.
    pub fn get_mut(&mut self) -> (r: &mut T)
        requires
            !old(self).locked(),
        ensures
            *r == old(self).value(),
            final(self).value() == *final(r),
            final(self).state() == old(self).state(),
    {
        &mut self.data
    }

    /// One compare-and-swap of the word from `0` to `1`: returns the word it
    /// observed, and claims the lock exactly when that word was `0`.
    pub(crate) fn cas_unlocked_claim(&mut self) -> (observed: usize)
        ensures
            observed as nat == old(self).state(),
            final(self).value() == old(self).value(),
            observed == 0 ==> final(self).state() == word_claim(old(self).state()),
            observed != 0 ==> final(self).state() == old(self).state(),
    {
        let observed = self.word;
        if observed == 0 {
            self.word = 1;
        }
        observed
    }

    /// One compare-and-swap of the word from `2` to `3`: returns the word it
    /// observed, and claims the lock exactly when the word was unlocked with
    /// precisely one escalated waiter recorded.
    pub(crate) fn cas_sole_fair_claim(&mut self) -> (observed: usize)
        ensures
            observed as nat == old(self).state(),
            final(self).value() == old(self).value(),
            observed == 2 ==> final(self).state() == word_claim(old(self).state()),
            observed != 2 ==> final(self).state() == old(self).state(),
    {
        let observed = self.word;
        if observed == 2 {
            self.word = 3;
        }
        observed
    }

    /// One fetch-or of the lock bit: returns the prior word; the lock is
    /// claimed exactly when that word was unlocked.
    pub(crate) fn fetch_or_claim(&mut self) -> (prior: usize)
        ensures
            prior as nat == old(self).state(),
            final(self).value() == old(self).value(),
            !word_locked(prior as nat) ==> final(self).state() == word_claim(old(self).state()),
            word_locked(prior as nat) ==> final(self).state() == old(self).state(),
    {
        let prior = self.word;
        if prior % 2 == 0 {
            self.word = prior + 1;
        }
        prior
    }

    /// Records one more escalated waiter in the word.
    pub(crate) fn escalate(&mut self)
        requires
            old(self).state() + 2 <= usize::MAX,
        ensures
            final(self).value() == old(self).value(),
            final(self).state() == word_escalate(old(self).state()),
    {
        self.word = self.word + 2;
    }

    /// Removes one escalated waiter from the word.
    pub(crate) fn retire(&mut self)
        requires
            old(self).starved() >= 1,
        ensures
            final(self).value() == old(self).value(),
            final(self).state() == word_retire(old(self).state()),
    {
        self.word = self.word - 2;
    }

    /// Begins an acquisition of this mutex: the resumable operation behind
    /// both the suspending and the thread-blocking entry points. The caller
    /// drives the returned operation with [`crate::acquire::Lock::poll`]; its
    /// first poll makes the fast-path attempt, so the uncontended case never
    /// starts the state machine.
    pub fn lock(&self) -> (l: crate::acquire::Lock)
        ensures
            l.wf(),
            !l.started(),
            !l.finished(),
            l.contribution() == 0,
    {
        crate::acquire::Lock::new()
    }

    /// The rendering decision of the debug form: expose the value exactly
    /// when one fast-path claim would succeed, and nothing otherwise — never
    /// wait for the lock just to display it.
    pub fn peek(&self) -> (r: Option<&T>)
        ensures
            r is Some <==> self.state() == 0,
            r matches Some(v) ==> *v == self.value(),
    {
        if self.word == 0 {
            Some(&self.data)
        } else {
            None
        }
    }
}

} // verus!
