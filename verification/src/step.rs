//! Classification of every observation the acquisition state machine makes.
//!
//! Each function here takes the state-word value that one atomic operation
//! observed and decides what the attempt does next. The racy loop tries the
//! unlocked-and-unescalated word; the fair loop claims the lock only when the
//! word shows the attempt's own escalation and nothing else, and otherwise
//! passes a received wake along the queue. The proofs at the bottom pin down
//! the exclusion and fairness facts of these decisions.

use vstd::prelude::*;

use crate::word::{word_claim, word_locked, word_release, word_starved};

verus! {

/// How long an attempt may stay in the racy phase before it escalates into
/// fair mode, in microseconds.
pub const FAIRNESS_THRESHOLD_MICROS: u128 = 500;

/// What a racy-phase attempt does after one compare-and-swap of the word from
/// `0` to `1`.
#[derive(Clone, Copy, PartialEq, Eq, Structural, Debug)]
pub enum RacyStep {
    /// The word was `0` and the swap claimed the lock.
    Acquired,
    /// The word was locked with nobody escalated: wait for a wake.
    Sleep,
    /// Leave the racy phase and escalate into fair mode. `forward_wake` says
    /// whether a wake must first be passed on, because the wake that resumed
    /// this attempt was almost certainly meant for an escalated waiter.
    Escalate { forward_wake: bool },
}

/// The racy-phase decision on an observed word.
///
/// `woken` says whether this attempt was just resumed by a wake (rather than
/// making its first check after registering); `timed_out` says whether it has
/// been pending longer than [`FAIRNESS_THRESHOLD_MICROS`]. Only a woken
/// attempt consults the clock, and only a woken attempt forwards a wake.
pub open spec fn racy_step_spec(observed: nat, woken: bool, timed_out: bool) -> RacyStep {
    if observed == 0 {
        RacyStep::Acquired
    } else if word_starved(observed) > 0 {
        RacyStep::Escalate { forward_wake: woken }
    } else if woken && timed_out {
        RacyStep::Escalate { forward_wake: false }
    } else {
        RacyStep::Sleep
    }
}

/// Decides one racy-phase step from the word value a compare-and-swap
/// observed.
pub fn racy_step(observed: usize, woken: bool, timed_out: bool) -> (r: RacyStep)
    ensures
        r == racy_step_spec(observed as nat, woken, timed_out),
{
    if observed == 0 {
        RacyStep::Acquired
    } else if observed >= 2 {
        RacyStep::Escalate { forward_wake: woken }
    } else if woken && timed_out {
        RacyStep::Escalate { forward_wake: false }
    } else {
        RacyStep::Sleep
    }
}

/// What a fair-phase attempt does after one compare-and-swap of the word from
/// `2` to `3`, made right after registering for a wake.
#[derive(Clone, Copy, PartialEq, Eq, Structural, Debug)]
pub enum FairStep {
    /// The word was exactly `2`: unlocked, and this attempt's own escalation
    /// is the only one. The swap claimed the lock.
    Acquired,
    /// The word was locked: wait for a wake.
    Sleep,
    /// The word was unlocked but other escalated waiters are recorded: do not
    /// race for the lock; wake the first listener in line to pass the baton,
    /// then wait.
    PassWake,
}

/// The fair-phase decision on an observed word.
pub open spec fn fair_step_spec(observed: nat) -> FairStep {
    if observed == 2 {
        FairStep::Acquired
    } else if word_locked(observed) {
        FairStep::Sleep
    } else {
        FairStep::PassWake
    }
}

/// Decides one fair-phase step from the word value a compare-and-swap
/// observed.
pub fn fair_step(observed: usize) -> (r: FairStep)
    ensures
        r == fair_step_spec(observed as nat),
{
    if observed == 2 {
        FairStep::Acquired
    } else if observed % 2 == 1 {
        FairStep::Sleep
    } else {
        FairStep::PassWake
    }
}

/// Whether a woken fair-phase attempt acquires the lock: after a wake it sets
/// the lock bit unconditionally (fetch-or) and owns the lock exactly when the
/// prior word was unlocked.
pub open spec fn fair_wake_acquires_spec(prior: nat) -> bool {
    !word_locked(prior)
}

/// Decides a woken fair-phase step from the word value the fetch-or observed.
pub fn fair_wake_acquires(prior: usize) -> (r: bool)
    ensures
        r == fair_wake_acquires_spec(prior as nat),
{
    prior % 2 == 0
}

/// The fast path (and `try_lock`) succeeds only on the word `0`: never while
/// the lock is held, and never while any escalated waiter is recorded.
pub open spec fn fast_path_spec(observed: nat) -> bool {
    observed == 0
}

/// Mutual exclusion at the word level: every way of claiming the lock sees an
/// unlocked word and leaves a locked one, so no second claim can succeed
/// before a release clears the lock bit again.
pub proof fn lemma_mutual_exclusion(observed: nat, woken: bool, timed_out: bool)
    ensures
        racy_step_spec(observed, woken, timed_out) == RacyStep::Acquired ==> !word_locked(observed)
            && word_locked(word_claim(observed)),
        fair_step_spec(observed) == FairStep::Acquired ==> !word_locked(observed) && word_locked(
            word_claim(observed),
        ),
        fair_wake_acquires_spec(observed) ==> !word_locked(observed) && word_locked(
            word_claim(observed),
        ),
        fast_path_spec(observed) ==> !word_locked(observed) && word_locked(word_claim(observed)),
        word_locked(observed) ==> racy_step_spec(observed, woken, timed_out) != RacyStep::Acquired
            && fair_step_spec(observed) != FairStep::Acquired && !fair_wake_acquires_spec(observed)
            && !fast_path_spec(observed),
{
}

/// Fairness at the word level: while any escalated waiter is recorded, no
/// racy attempt and no fast-path attempt can claim the lock — a racy attempt
/// that sees the escalation joins the fair queue itself — and the registered
/// fair claim succeeds only for the sole recorded escalation.
pub proof fn lemma_escalation_blocks_racers(observed: nat, woken: bool, timed_out: bool)
    requires
        word_starved(observed) > 0,
    ensures
        racy_step_spec(observed, woken, timed_out) != RacyStep::Acquired,
        !fast_path_spec(observed),
        racy_step_spec(observed, woken, timed_out) matches RacyStep::Escalate { forward_wake }
            && forward_wake == woken,
        fair_step_spec(observed) == FairStep::Acquired ==> word_starved(observed) == 1
            && !word_locked(observed),
{
}

/// A step-level liveness bound: releasing the lock hands the next claim to
/// somebody. After a release the word is unlocked; if nobody escalated, a racy
/// attempt's next check acquires; if exactly one attempt escalated, its fair
/// check acquires; if several escalated, the fair check passes the wake along
/// the queue rather than dropping it.
pub proof fn lemma_release_enables_acquire(s: nat, woken: bool, timed_out: bool)
    requires
        word_locked(s),
    ensures
        !word_locked(word_release(s)),
        word_starved(s) == 0 ==> racy_step_spec(word_release(s), woken, timed_out)
            == RacyStep::Acquired,
        word_starved(s) == 0 ==> fast_path_spec(word_release(s)),
        word_starved(s) == 1 ==> fair_step_spec(word_release(s)) == FairStep::Acquired,
        word_starved(s) > 1 ==> fair_step_spec(word_release(s)) == FairStep::PassWake,
        fair_wake_acquires_spec(word_release(s)),
{
}

} // verus!
