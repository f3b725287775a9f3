use vstd::prelude::*;

verus! {

/// Notification emitted when a new session starts.
#[derive(Clone, Copy, Debug, PartialEq, Eq, Structural)]
pub struct TypingSessionStarted {
    pub player: u64,
    pub timestamp: i64,
}

/// Notification emitted for every recorded word, carrying the running
/// accuracy after the word was counted.
#[derive(Clone, Copy, Debug, PartialEq, Eq, Structural)]
pub struct WordTyped {
    pub player: u64,
    pub word_number: u32,
    pub is_correct: bool,
    pub current_accuracy: u8,
}

/// Snapshot of a live session's progress, for the host to persist or
/// forward as a checkpoint.
#[derive(Clone, Copy, Debug, PartialEq, Eq, Structural)]
pub struct TypingCheckpoint {
    pub player: u64,
    pub words_typed: u32,
    pub accuracy: u8,
}

/// Notification emitted when a session ends, with its final statistics.
#[derive(Clone, Copy, Debug, PartialEq, Eq, Structural)]
pub struct TypingSessionEnded {
    pub player: u64,
    pub words_typed: u32,
    pub wpm: u16,
    pub accuracy: u8,
    pub duration: i64,
}

/// Notification emitted when a finished session is folded into a record.
#[derive(Clone, Copy, Debug, PartialEq, Eq, Structural)]
pub struct TypingSessionSaved {
    pub player: u64,
    pub attempt_number: u32,
}

} // verus!
