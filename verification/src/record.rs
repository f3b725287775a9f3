use vstd::prelude::*;

use crate::errors::TypingError;
use crate::events::TypingSessionSaved;
use crate::session::{session_end_time, TypingSession};

verus! {

/// Capacity of a personal record's attempt history: once this many
/// attempts have been folded in, further saves are refused.
pub const MAX_ATTEMPTS: u32 = 30;

/// Immutable snapshot of one completed session, stored in a player's
/// history. Created once by [`save_to_record`], never mutated.
#[derive(Clone, Copy, Debug, PartialEq, Eq, Structural)]
pub struct TypingAttempt {
    /// 1-based position of this attempt in the history.
    pub attempt_number: u32,
    pub words_typed: u32,
    pub correct_words: u32,
    pub errors: u32,
    pub wpm: u16,
    pub accuracy: u8,
    /// Elapsed seconds from start to end; may be non-positive under clock
    /// anomalies.
    pub duration: i64,
    /// Session end time.
    pub timestamp: i64,
}

/// One player's lifetime ledger: a capped, append-only history of finished
/// attempts plus running totals and best-ever scores.
#[derive(Clone, Debug)]
pub struct PersonalRecord {
    /// The player who owns this record.
    pub player: u64,
    /// Number of attempts folded in so far.
    pub attempt_count: u32,
    /// Lifetime words typed, across all folded attempts.
    pub total_words_typed: u64,
    /// Lifetime correct words, across all folded attempts.
    pub total_correct_words: u64,
    /// Best words-per-minute score ever folded in.
    pub best_wpm: u16,
    /// Best accuracy ever folded in.
    pub best_accuracy: u8,
    /// History of all attempts, in arrival order.
    pub attempts: Vec<TypingAttempt>,
}

/// The snapshot that folding session `s` in as attempt number `n` appends
/// to the history: the session's statistics copied verbatim, with the
/// duration measured from start to recorded end (an absent end counts as
/// time 0).
pub open spec fn attempt_of(s: TypingSession, n: u32) -> TypingAttempt {
    TypingAttempt {
        attempt_number: n,
        words_typed: s.words_typed,
        correct_words: s.correct_words,
        errors: s.errors,
        wpm: s.wpm,
        accuracy: s.accuracy,
        duration: (session_end_time(s) - s.started_at) as i64,
        timestamp: session_end_time(s),
    }
}

/// Well-formedness of a record; established by [`init_personal_record`]
/// and preserved by [`save_to_record`].
///
/// The history never outgrows its capacity, the attempt count always
/// equals the history's length, and each stored attempt carries the
/// 1-based number of its own slot.
pub open spec fn record_wf(r: PersonalRecord) -> bool {
    &&& r.attempt_count <= MAX_ATTEMPTS
    &&& r.attempts@.len() == r.attempt_count
    &&& forall|i: int|
        0 <= i < r.attempts@.len() ==> #[trigger] r.attempts@[i].attempt_number == i + 1
}

/// Create the empty personal record for `player`: no attempts, all
/// accumulators and best scores zero. Creation never fails.
pub fn init_personal_record(player: u64) -> (r: PersonalRecord)
    ensures
        r.player == player,
        r.attempt_count == 0,
        r.total_words_typed == 0,
        r.total_correct_words == 0,
        r.best_wpm == 0,
        r.best_accuracy == 0,
        r.attempts@.len() == 0,
        record_wf(r),
{
    PersonalRecord {
        player,
        attempt_count: 0,
        total_words_typed: 0,
        total_correct_words: 0,
        best_wpm: 0,
        best_accuracy: 0,
        attempts: Vec::new(),
    }
}

/// Fold a finished session into the player's record.
///
/// Fails with `SessionStillActive` while the session has not ended, with
/// `MaxAttemptsReached` once the history holds its full capacity, and with
/// `ArithmeticOverflow` when a lifetime accumulator would exceed its
/// range; every failure leaves the record unchanged. On success a snapshot
/// of the session is appended to the history (prior entries are never
/// touched), the attempt count grows by one, the session's words are added
/// to the lifetime totals, the best scores take the session's scores when
/// those are strictly greater, and the returned "record saved"
/// notification carries the new attempt number. The best scores never
/// decrease, whatever the outcome.
pub fn save_to_record(session: &TypingSession, record: &mut PersonalRecord) -> (r: Result<
    TypingSessionSaved,
    TypingError,
>)
    requires
        record_wf(*old(record)),
        !session.is_active && old(record).attempt_count < MAX_ATTEMPTS ==> i64::MIN
            <= session_end_time(*session) - session.started_at <= i64::MAX,
    ensures
        record_wf(*final(record)),
        final(record).player == old(record).player,
        final(record).best_wpm >= old(record).best_wpm,
        final(record).best_accuracy >= old(record).best_accuracy,
        forall|i: int|
            0 <= i < old(record).attempts@.len() ==> #[trigger] final(record).attempts@[i] == old(
                record,
            ).attempts@[i],
        session.is_active ==> r == Err::<TypingSessionSaved, TypingError>(
            TypingError::SessionStillActive,
        ) && *final(record) == *old(record),
        !session.is_active && old(record).attempt_count >= MAX_ATTEMPTS ==> r == Err::<
            TypingSessionSaved,
            TypingError,
        >(TypingError::MaxAttemptsReached) && *final(record) == *old(record),
        !session.is_active && old(record).attempt_count < MAX_ATTEMPTS && (old(
            record,
        ).total_words_typed + session.words_typed > u64::MAX || old(record).total_correct_words
            + session.correct_words > u64::MAX) ==> r == Err::<TypingSessionSaved, TypingError>(
            TypingError::ArithmeticOverflow,
        ) && *final(record) == *old(record),
        !session.is_active && old(record).attempt_count < MAX_ATTEMPTS && old(
            record,
        ).total_words_typed + session.words_typed <= u64::MAX && old(record).total_correct_words
            + session.correct_words <= u64::MAX ==> {
            &&& final(record).attempt_count == old(record).attempt_count + 1
            &&& final(record).attempts@ == old(record).attempts@.push(
                attempt_of(*session, (old(record).attempt_count + 1) as u32),
            )
            &&& final(record).total_words_typed == old(record).total_words_typed
                + session.words_typed
            &&& final(record).total_correct_words == old(record).total_correct_words
                + session.correct_words
            &&& final(record).best_wpm == (
            if session.wpm > old(record).best_wpm {
                session.wpm
            } else {
                old(record).best_wpm
            })
            &&& final(record).best_accuracy == (
            if session.accuracy > old(record).best_accuracy {
                session.accuracy
            } else {
                old(record).best_accuracy
            })
            &&& r == Ok::<TypingSessionSaved, TypingError>(TypingSessionSaved {
                player: session.player,
                attempt_number: final(record).attempt_count,
            })
        },
{
    if session.is_active {
        return Err(TypingError::SessionStillActive);
    }
    if record.attempt_count >= MAX_ATTEMPTS {
        return Err(TypingError::MaxAttemptsReached);
    }
    // Validate both lifetime accumulators before mutating anything, so a
    // failure leaves the record untouched.
    let new_total_words: u64 = match record.total_words_typed.checked_add(
        session.words_typed as u64,
    ) {
        Some(v) => v,
        None => {
            return Err(TypingError::ArithmeticOverflow);
        },
    };
    let new_total_correct: u64 = match record.total_correct_words.checked_add(
        session.correct_words as u64,
    ) {
        Some(v) => v,
        None => {
            return Err(TypingError::ArithmeticOverflow);
        },
    };
    let end_time: i64 = match session.ended_at {
        Some(t) => t,
        None => 0,
    };
    let attempt = TypingAttempt {
        attempt_number: record.attempt_count + 1,
        words_typed: session.words_typed,
        correct_words: session.correct_words,
        errors: session.errors,
        wpm: session.wpm,
        accuracy: session.accuracy,
        duration: end_time - session.started_at,
        timestamp: end_time,
    };
    record.attempts.push(attempt);
    record.attempt_count = record.attempt_count + 1;
    record.total_words_typed = new_total_words;
    record.total_correct_words = new_total_correct;
    if session.wpm > record.best_wpm {
        record.best_wpm = session.wpm;
    }
    if session.accuracy > record.best_accuracy {
        record.best_accuracy = session.accuracy;
    }
    Ok(TypingSessionSaved { player: session.player, attempt_number: record.attempt_count })
}

} // verus!
