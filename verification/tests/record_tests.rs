use typing_speed_game::errors::TypingError;
use typing_speed_game::record::{init_personal_record, save_to_record, PersonalRecord, MAX_ATTEMPTS};
use typing_speed_game::session::{end_session, initialize, type_word, TypingSession};

const PLAYER: u64 = 23;

fn ended_session(correct: u32, incorrect: u32, started_at: i64, ended_at: i64) -> TypingSession {
    let (mut session, _) = initialize(PLAYER, started_at);
    for _ in 0..correct {
        type_word(&mut session, PLAYER, true).expect("recording a correct word");
    }
    for _ in 0..incorrect {
        type_word(&mut session, PLAYER, false).expect("recording an incorrect word");
    }
    end_session(&mut session, PLAYER, ended_at).expect("ending the session");
    session
}

fn assert_records_equal(a: &PersonalRecord, b: &PersonalRecord) {
    assert_eq!(a.player, b.player);
    assert_eq!(a.attempt_count, b.attempt_count);
    assert_eq!(a.total_words_typed, b.total_words_typed);
    assert_eq!(a.total_correct_words, b.total_correct_words);
    assert_eq!(a.best_wpm, b.best_wpm);
    assert_eq!(a.best_accuracy, b.best_accuracy);
    assert_eq!(a.attempts, b.attempts);
}

#[test]
fn fresh_record_is_empty() {
    let record = init_personal_record(PLAYER);
    assert_eq!(record.player, PLAYER);
    assert_eq!(record.attempt_count, 0);
    assert_eq!(record.total_words_typed, 0);
    assert_eq!(record.total_correct_words, 0);
    assert_eq!(record.best_wpm, 0);
    assert_eq!(record.best_accuracy, 0);
    assert!(record.attempts.is_empty());
}

#[test]
fn saving_a_finished_session_fills_the_first_slot() {
    let session = ended_session(8, 2, 0, 60);
    let mut record = init_personal_record(PLAYER);

    let saved = save_to_record(&session, &mut record).expect("saving the session");
    assert_eq!(saved.player, PLAYER);
    assert_eq!(saved.attempt_number, 1);

    assert_eq!(record.attempt_count, 1);
    assert_eq!(record.total_words_typed, 10);
    assert_eq!(record.total_correct_words, 8);
    assert_eq!(record.best_wpm, 8);
    assert_eq!(record.best_accuracy, 80);
    assert_eq!(record.attempts.len(), 1);

    let attempt = record.attempts[0];
    assert_eq!(attempt.attempt_number, 1);
    assert_eq!(attempt.words_typed, 10);
    assert_eq!(attempt.correct_words, 8);
    assert_eq!(attempt.errors, 2);
    assert_eq!(attempt.wpm, 8);
    assert_eq!(attempt.accuracy, 80);
    assert_eq!(attempt.duration, 60);
    assert_eq!(attempt.timestamp, 60);
}

#[test]
fn active_session_cannot_be_saved() {
    let (session, _) = initialize(PLAYER, 0);
    let mut record = init_personal_record(PLAYER);
    let frozen = record.clone();

    assert_eq!(
        save_to_record(&session, &mut record),
        Err(TypingError::SessionStillActive)
    );
    assert_records_equal(&record, &frozen);
}

#[test]
fn record_fills_to_capacity_then_rejects() {
    let session = ended_session(3, 0, 0, 60);
    let mut record = init_personal_record(PLAYER);

    for i in 0..MAX_ATTEMPTS {
        let saved = save_to_record(&session, &mut record).expect("saving within capacity");
        assert_eq!(saved.attempt_number, i + 1);
    }
    assert_eq!(record.attempt_count, 30);
    assert_eq!(record.attempts.len(), 30);
    for (i, attempt) in record.attempts.iter().enumerate() {
        assert_eq!(attempt.attempt_number as usize, i + 1);
    }
    assert_eq!(record.total_words_typed, 90);

    let frozen = record.clone();
    assert_eq!(
        save_to_record(&session, &mut record),
        Err(TypingError::MaxAttemptsReached)
    );
    assert_eq!(record.attempt_count, 30);
    assert_records_equal(&record, &frozen);
}

#[test]
fn lifetime_word_total_overflow_is_rejected_unchanged() {
    let session = ended_session(1, 0, 0, 60);
    let mut record = init_personal_record(PLAYER);
    record.total_words_typed = u64::MAX;
    let frozen = record.clone();

    assert_eq!(
        save_to_record(&session, &mut record),
        Err(TypingError::ArithmeticOverflow)
    );
    assert_records_equal(&record, &frozen);
}

#[test]
fn lifetime_correct_total_overflow_is_rejected_unchanged() {
    let session = ended_session(1, 0, 0, 60);
    let mut record = init_personal_record(PLAYER);
    record.total_correct_words = u64::MAX;
    let frozen = record.clone();

    assert_eq!(
        save_to_record(&session, &mut record),
        Err(TypingError::ArithmeticOverflow)
    );
    assert_records_equal(&record, &frozen);
}

#[test]
fn best_scores_never_decrease() {
    let strong = ended_session(20, 0, 0, 60);
    let weak = ended_session(2, 2, 0, 60);
    let mut record = init_personal_record(PLAYER);

    save_to_record(&strong, &mut record).expect("saving the strong attempt");
    assert_eq!(record.best_wpm, 20);
    assert_eq!(record.best_accuracy, 100);

    save_to_record(&weak, &mut record).expect("saving the weak attempt");
    assert_eq!(record.best_wpm, 20);
    assert_eq!(record.best_accuracy, 100);
    assert_eq!(record.attempt_count, 2);
    assert_eq!(record.attempts[1].wpm, 2);
    assert_eq!(record.attempts[1].accuracy, 50);
}

#[test]
fn earlier_attempts_are_never_overwritten() {
    let first = ended_session(8, 2, 0, 60);
    let second = ended_session(4, 0, 100, 160);
    let mut record = init_personal_record(PLAYER);

    save_to_record(&first, &mut record).expect("saving the first attempt");
    let first_snapshot = record.attempts[0];
    save_to_record(&second, &mut record).expect("saving the second attempt");

    assert_eq!(record.attempts[0], first_snapshot);
    assert_eq!(record.attempts[1].attempt_number, 2);
    assert_eq!(record.attempts[1].words_typed, 4);
}

#[test]
fn missing_end_time_counts_as_time_zero() {
    let (mut session, _) = initialize(PLAYER, 5);
    session.is_active = false;
    session.ended_at = None;
    let mut record = init_personal_record(PLAYER);

    save_to_record(&session, &mut record).expect("saving the session");
    assert_eq!(record.attempts[0].timestamp, 0);
    assert_eq!(record.attempts[0].duration, -5);
}
