//! The algebra of the state word.
//!
//! A single unsigned machine word carries the whole shared state of one lock:
//! bit 0 is the lock bit, and the remaining bits, read as a counter stepped in
//! units of two, hold the number of acquisition attempts that have escalated
//! into fair mode (the "starved" count). So `0` is unlocked with no
//! escalation, `1` is locked with no escalation, `2` is unlocked with one
//! escalated waiter, `3` is locked with one escalated waiter, and so on.

use vstd::prelude::*;

verus! {

/// Whether the word's lock bit is set.
pub open spec fn word_locked(s: nat) -> bool {
    s % 2 == 1
}

/// How many escalated (fair-mode) attempts the word records.
pub open spec fn word_starved(s: nat) -> nat {
    s / 2
}

/// The word that encodes a lock bit and an escalation count.
pub open spec fn word_encode(locked: bool, starved: nat) -> nat {
    2 * starved + if locked { 1nat } else { 0nat }
}

/// Claiming the lock: sets the lock bit of an unlocked word.
pub open spec fn word_claim(s: nat) -> nat {
    s + 1
}

/// Releasing the lock: clears the lock bit of a locked word.
pub open spec fn word_release(s: nat) -> nat {
    (s - 1) as nat
}

/// Escalating one attempt into fair mode: steps the count up by one.
pub open spec fn word_escalate(s: nat) -> nat {
    s + 2
}

/// Retiring one escalated attempt: steps the count down by one.
pub open spec fn word_retire(s: nat) -> nat {
    (s - 2) as nat
}

/// Encoding and decoding the word are inverse to each other.
pub proof fn lemma_word_roundtrip(locked: bool, starved: nat)
    ensures
        word_locked(word_encode(locked, starved)) == locked,
        word_starved(word_encode(locked, starved)) == starved,
{
}

/// A word is nothing but its lock bit and its escalation count.
pub proof fn lemma_word_complete(s: nat)
    ensures
        word_encode(word_locked(s), word_starved(s)) == s,
{
}

/// Claiming an unlocked word sets the lock bit and touches nothing else.
pub proof fn lemma_claim(s: nat)
    requires
        !word_locked(s),
    ensures
        word_locked(word_claim(s)),
        word_starved(word_claim(s)) == word_starved(s),
{
}

/// Releasing a locked word clears the lock bit and touches nothing else.
pub proof fn lemma_release(s: nat)
    requires
        word_locked(s),
    ensures
        !word_locked(word_release(s)),
        word_starved(word_release(s)) == word_starved(s),
{
}

/// Escalation steps the count up by exactly one and keeps the lock bit.
pub proof fn lemma_escalate(s: nat)
    ensures
        word_locked(word_escalate(s)) == word_locked(s),
        word_starved(word_escalate(s)) == word_starved(s) + 1,
{
}

/// Retiring an escalated attempt steps the count down by exactly one and
/// keeps the lock bit.
pub proof fn lemma_retire(s: nat)
    requires
        word_starved(s) >= 1,
    ensures
        word_locked(word_retire(s)) == word_locked(s),
        word_starved(word_retire(s)) == word_starved(s) - 1,
{
}

/// Reads the lock bit of a word.
pub fn is_locked(s: usize) -> (r: bool)
    ensures
        r == word_locked(s as nat),
{
    s % 2 == 1
}

/// Reads the escalation count of a word.
pub fn starved_count(s: usize) -> (r: usize)
    ensures
        r as nat == word_starved(s as nat),
{
    s / 2
}

} // verus!
