use vstd::prelude::*;

use crate::record::{record_wf, PersonalRecord};
use crate::session::{session_wf, TypingSession};

verus! {

/// In every well-formed session the correct words and the errors
/// partition the typed words exactly.
pub proof fn lemma_counters_partition(s: TypingSession)
    requires
        session_wf(s),
    ensures
        s.correct_words + s.errors == s.words_typed,
{
}

/// In every well-formed session the stored accuracy is the integer-
/// truncated percentage of correct words among typed words, and 0 while
/// nothing has been typed.
pub proof fn lemma_accuracy_truncated(s: TypingSession)
    requires
        session_wf(s),
    ensures
        s.words_typed > 0 ==> s.accuracy == s.correct_words as int * 100 / s.words_typed as int,
        s.words_typed == 0 ==> s.accuracy == 0,
{
}

/// In every well-formed session the stored accuracy is a percentage:
/// it never exceeds 100.
pub proof fn lemma_accuracy_bounded(s: TypingSession)
    requires
        session_wf(s),
    ensures
        s.accuracy <= 100,
{
    if s.words_typed > 0 {
        assert(s.correct_words as int * 100 / s.words_typed as int <= 100) by (nonlinear_arith)
            requires
                s.correct_words <= s.words_typed,
                s.words_typed >= 1,
        ;
    }
}

/// Every well-formed record stays within the history's capacity: at most
/// 30 attempts are ever held, and the count matches the history's length.
pub proof fn lemma_record_bounded(r: PersonalRecord)
    requires
        record_wf(r),
    ensures
        r.attempt_count <= 30,
        r.attempts@.len() <= 30,
        r.attempts@.len() == r.attempt_count,
{
}

/// In every well-formed record each stored attempt carries the 1-based
/// number of its own slot: the history is append-only and numbered in
/// arrival order.
pub proof fn lemma_attempts_numbered(r: PersonalRecord)
    requires
        record_wf(r),
    ensures
        forall|i: int|
            0 <= i < r.attempts@.len() ==> #[trigger] r.attempts@[i].attempt_number == i + 1,
{
}

} // verus!
