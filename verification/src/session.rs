use vstd::prelude::*;

use crate::errors::TypingError;
use crate::events::{TypingCheckpoint, TypingSessionEnded, TypingSessionStarted, WordTyped};

verus! {

/// One player's live typing run.
///
/// Created by [`initialize`], advanced one word at a time by [`type_word`],
/// and closed (not deleted) by [`end_session`]. The `player` field is an
/// opaque identity token: the engine relies on nothing but equality with
/// the caller's identity.
#[derive(Clone, Copy, Debug, PartialEq, Eq, Structural)]
pub struct TypingSession {
    /// The player who owns this session.
    pub player: u64,
    /// Total words typed.
    pub words_typed: u32,
    /// Number of correct words.
    pub correct_words: u32,
    /// Number of errors.
    pub errors: u32,
    /// Words per minute, computed once at session end; 0 before then.
    pub wpm: u16,
    /// Accuracy percentage (0..=100), recomputed on every word.
    pub accuracy: u8,
    /// Whether the session is active.
    pub is_active: bool,
    /// Session start timestamp (seconds).
    pub started_at: i64,
    /// Session end timestamp, set exactly once, at session end.
    pub ended_at: Option<i64>,
}

/// The integer-truncated accuracy percentage: `correct * 100 / words`,
/// rounded down, and 0 while no word has been typed.
pub open spec fn accuracy_of(correct: u32, words: u32) -> int {
    if words == 0 {
        0
    } else {
        correct as int * 100 / words as int
    }
}

/// The integer-truncated words-per-minute score: correct words divided by
/// elapsed minutes, i.e. `correct * 60 / duration` rounded down, 0 when the
/// duration is not positive, and capped at the largest `u16` value.
pub open spec fn wpm_of(correct: u32, duration: int) -> int {
    if duration <= 0 {
        0
    } else if correct as int * 60 / duration > 65535 {
        65535
    } else {
        correct as int * 60 / duration
    }
}

/// The session end time used for durations: the recorded end timestamp,
/// or 0 when none was ever set.
pub open spec fn session_end_time(s: TypingSession) -> i64 {
    match s.ended_at {
        Some(t) => t,
        None => 0,
    }
}

/// Well-formedness of a session; established by [`initialize`] and
/// preserved by every operation.
///
/// Correct words and errors partition the typed words; the stored accuracy
/// is always the truncated percentage of the current counters; an active
/// session has no end timestamp and no words-per-minute score yet, and an
/// ended one carries its end timestamp.
pub open spec fn session_wf(s: TypingSession) -> bool {
    &&& s.correct_words + s.errors == s.words_typed
    &&& s.accuracy == accuracy_of(s.correct_words, s.words_typed)
    &&& (s.is_active ==> s.ended_at is None && s.wpm == 0)
    &&& (!s.is_active ==> s.ended_at is Some)
}

/// Start a new typing session for `player` at time `now`: all counters
/// zeroed, active, with the start timestamp pinned. Returns the fresh
/// session together with the "session started" notification for the host's
/// event sink. Creation never fails.
pub fn initialize(player: u64, now: i64) -> (r: (TypingSession, TypingSessionStarted))
    ensures
        r.0 == (TypingSession {
            player,
            words_typed: 0,
            correct_words: 0,
            errors: 0,
            wpm: 0,
            accuracy: 0,
            is_active: true,
            started_at: now,
            ended_at: None,
        }),
        session_wf(r.0),
        r.1 == (TypingSessionStarted { player, timestamp: now }),
{
    let session = TypingSession {
        player,
        words_typed: 0,
        correct_words: 0,
        errors: 0,
        wpm: 0,
        accuracy: 0,
        is_active: true,
        started_at: now,
        ended_at: None,
    };
    let started = TypingSessionStarted { player, timestamp: now };
    (session, started)
}

/// Record one typed word for the session.
///
/// Fails with `InvalidAuth` when `caller` is not the owning player, with
/// `SessionNotActive` when the session has already ended, and with
/// `ArithmeticOverflow` when the word counter is already at its maximum;
/// every failure leaves the session unchanged. On success the word counter
/// and exactly one of the correct/error counters grow by one, the accuracy
/// is recomputed by integer truncation, and the returned "word typed"
/// notification carries the running accuracy.
pub fn type_word(session: &mut TypingSession, caller: u64, is_correct: bool) -> (r: Result<
    WordTyped,
    TypingError,
>)
    requires
        session_wf(*old(session)),
    ensures
        session_wf(*final(session)),
        caller != old(session).player ==> r == Err::<WordTyped, TypingError>(
            TypingError::InvalidAuth,
        ) && *final(session) == *old(session),
        caller == old(session).player && !old(session).is_active ==> r == Err::<
            WordTyped,
            TypingError,
        >(TypingError::SessionNotActive) && *final(session) == *old(session),
        caller == old(session).player && old(session).is_active && old(session).words_typed
            == u32::MAX ==> r == Err::<WordTyped, TypingError>(TypingError::ArithmeticOverflow)
            && *final(session) == *old(session),
        caller == old(session).player && old(session).is_active && old(session).words_typed
            < u32::MAX ==> {
            &&& final(session).words_typed == old(session).words_typed + 1
            &&& final(session).correct_words == old(session).correct_words + (
            if is_correct {
                1int
            } else {
                0int
            })
            &&& final(session).errors == old(session).errors + (
            if is_correct {
                0int
            } else {
                1int
            })
            &&& final(session).accuracy == accuracy_of(
                final(session).correct_words,
                final(session).words_typed,
            )
            &&& final(session).player == old(session).player
            &&& final(session).is_active
            &&& final(session).started_at == old(session).started_at
            &&& final(session).ended_at == old(session).ended_at
            &&& final(session).wpm == old(session).wpm
            &&& r == Ok::<WordTyped, TypingError>(WordTyped {
                player: caller,
                word_number: final(session).words_typed,
                is_correct,
                current_accuracy: final(session).accuracy,
            })
        },
{
    if caller != session.player {
        return Err(TypingError::InvalidAuth);
    }
    if !session.is_active {
        return Err(TypingError::SessionNotActive);
    }
    if session.words_typed == u32::MAX {
        return Err(TypingError::ArithmeticOverflow);
    }
    session.words_typed = session.words_typed + 1;
    if is_correct {
        session.correct_words = session.correct_words + 1;
    } else {
        session.errors = session.errors + 1;
    }
    // The percentage is at most 100 because correct words never exceed
    // typed words, so the truncation to u8 loses nothing.
    let percent: u64 = (session.correct_words as u64) * 100 / (session.words_typed as u64);
    assert(percent <= 100) by (nonlinear_arith)
        requires
            percent == session.correct_words as int * 100 / session.words_typed as int,
            session.correct_words <= session.words_typed,
            session.words_typed >= 1,
    ;
    session.accuracy = percent as u8;
    Ok(
        WordTyped {
            player: session.player,
            word_number: session.words_typed,
            is_correct,
            current_accuracy: session.accuracy,
        },
    )
}

/// End the session at time `now` and compute its final statistics.
///
/// Fails with `InvalidAuth` when `caller` is not the owning player and with
/// `SessionNotActive` when the session has already ended; both failures
/// leave the session unchanged. On success the session becomes inactive,
/// its end timestamp is set to `now`, and the words-per-minute score is
/// computed from the correct words and the elapsed seconds (staying 0 for a
/// non-positive duration). The returned "session ended" notification
/// carries the final statistics.
pub fn end_session(session: &mut TypingSession, caller: u64, now: i64) -> (r: Result<
    TypingSessionEnded,
    TypingError,
>)
    requires
        session_wf(*old(session)),
        caller == old(session).player && old(session).is_active ==> i64::MIN <= now - old(
            session,
        ).started_at <= i64::MAX,
    ensures
        session_wf(*final(session)),
        caller != old(session).player ==> r == Err::<TypingSessionEnded, TypingError>(
            TypingError::InvalidAuth,
        ) && *final(session) == *old(session),
        caller == old(session).player && !old(session).is_active ==> r == Err::<
            TypingSessionEnded,
            TypingError,
        >(TypingError::SessionNotActive) && *final(session) == *old(session),
        caller == old(session).player && old(session).is_active ==> {
            &&& final(session).is_active == false
            &&& final(session).ended_at == Some(now)
            &&& final(session).wpm == wpm_of(
                old(session).correct_words,
                now - old(session).started_at,
            )
            &&& final(session).player == old(session).player
            &&& final(session).words_typed == old(session).words_typed
            &&& final(session).correct_words == old(session).correct_words
            &&& final(session).errors == old(session).errors
            &&& final(session).accuracy == old(session).accuracy
            &&& final(session).started_at == old(session).started_at
            &&& r == Ok::<TypingSessionEnded, TypingError>(TypingSessionEnded {
                player: old(session).player,
                words_typed: old(session).words_typed,
                wpm: final(session).wpm,
                accuracy: old(session).accuracy,
                duration: (now - old(session).started_at) as i64,
            })
        },
{
    if caller != session.player {
        return Err(TypingError::InvalidAuth);
    }
    if !session.is_active {
        return Err(TypingError::SessionNotActive);
    }
    session.is_active = false;
    session.ended_at = Some(now);
    let duration: i64 = now - session.started_at;
    if duration > 0 {
        let scaled: u64 = (session.correct_words as u64) * 60 / (duration as u64);
        session.wpm = if scaled > 65535 {
            65535
        } else {
            scaled as u16
        };
    }
    Ok(
        TypingSessionEnded {
            player: session.player,
            words_typed: session.words_typed,
            wpm: session.wpm,
            accuracy: session.accuracy,
            duration,
        },
    )
}

/// Snapshot the session's current progress for the host's checkpoint or
/// synchronization machinery. Purely observational: the session itself is
/// not touched.
pub fn checkpoint(session: &TypingSession) -> (ev: TypingCheckpoint)
    ensures
        ev == (TypingCheckpoint {
            player: session.player,
            words_typed: session.words_typed,
            accuracy: session.accuracy,
        }),
{
    TypingCheckpoint {
        player: session.player,
        words_typed: session.words_typed,
        accuracy: session.accuracy,
    }
}

} // verus!
