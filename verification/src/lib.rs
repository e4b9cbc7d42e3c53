//! An eventually fair mutual-exclusion protocol.
//!
//! One machine word encodes the whole shared state of a lock: the lowest bit
//! says whether the lock is held, the remaining bits count the acquisition
//! attempts that have escalated into strict first-come-first-served ("fair")
//! mode. Contended acquisition runs a two-phase state machine: a low-overhead
//! racy loop first, then escalation into the fair queue once the attempt has
//! waited too long or has seen somebody else escalate.
//!
//! The crate verifies that protocol:
//! - [`word`] is the algebra of the state word and its transitions;
//! - [`step`] classifies every observation the state machine can make and
//!   proves the exclusion and fairness facts of those decisions;
//! - [`acquire`] is the resumable acquisition state machine, with its
//!   escalation bookkeeping proved exact under cancellation;
//! - [`mutex`] is a value-carrying mutex whose guards are the sole proof of
//!   exclusivity;
//! - [`raw`] drives the same verified decisions over a real atomic word and
//!   the notifier of the `event_listener` crate, for waiting threads.

pub mod acquire;
pub mod mutex;
pub mod raw;
pub mod step;
pub mod word;
