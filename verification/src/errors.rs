use vstd::prelude::*;

verus! {

/// Why a session or ledger operation was refused.
///
/// Every failure is a deterministic function of the current state and the
/// inputs, and the refused operation leaves all state unchanged.
#[derive(Clone, Copy, Debug, PartialEq, Eq, Structural)]
pub enum TypingError {
    /// A word was recorded, or an end requested, on a session that is no
    /// longer active.
    SessionNotActive,
    /// The caller is not the player who owns the session.
    InvalidAuth,
    /// The ledger already holds its maximum number of attempts.
    MaxAttemptsReached,
    /// A session that is still active cannot be folded into the record.
    SessionStillActive,
    /// A counter or accumulator would exceed its representable range.
    ArithmeticOverflow,
}

} // verus!
