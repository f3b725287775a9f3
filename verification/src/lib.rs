//! Typing-speed measurement and record keeping.
//!
//! A `TypingSession` tracks one player's live typing run: words typed,
//! correctness, running accuracy, and the words-per-minute score computed
//! when the run ends. A `PersonalRecord` is the player's lifetime ledger:
//! a capped, append-only history of finished attempts together with
//! running totals and best-ever scores.
//!
//! Every operation is a pure, synchronous state transition that either
//! commits in full or fails with a `TypingError` and leaves its inputs
//! untouched. The surrounding host supplies identities, timestamps and
//! durable storage; this crate holds only the rules.

pub mod errors;
pub mod events;
pub mod laws;
pub mod record;
pub mod session;
