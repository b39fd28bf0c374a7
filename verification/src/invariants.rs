//! What holds of every record, however many votes are attempted on it.

use vstd::prelude::*;
use crate::error::ErrorCode;
use crate::state::{Choice, VoteState};

verus! {

/// After an accepted vote, every further attempt, for either option, is
/// refused with [`ErrorCode::AlreadyVoted`] and leaves the record unchanged.
pub proof fn lemma_second_vote_refused(record: VoteState, first: Choice, second: Choice)
    requires
        record.cast_result() is Ok,
    ensures
        record.cast(first).cast_result() == Err::<(), ErrorCode>(ErrorCode::AlreadyVoted),
        record.cast(first).cast(second) == record.cast(first),
{
}

/// Once the latch is set the record is frozen: no sequence of attempts
/// changes any flag, so the latch never opens again.
pub proof fn lemma_latch_stays_set(record: VoteState, choices: Seq<Choice>)
    requires
        record.has_voted,
    ensures
        record.cast_all(choices).has_voted,
        record.cast_all(choices) == record,
    decreases choices.len(),
{
    if choices.len() > 0 {
        lemma_latch_stays_set(record.cast(choices.first()), choices.drop_first());
    }
}

/// The first attempt on a fresh record decides it: whatever follows, the
/// record holds the first choice, and with no attempt it stays fresh.
pub proof fn lemma_first_vote_decides(choices: Seq<Choice>)
    ensures
        choices.len() == 0 ==> VoteState::fresh().cast_all(choices) == VoteState::fresh(),
        choices.len() > 0 ==> VoteState::fresh().cast_all(choices)
            == VoteState::voted(choices.first()),
{
    if choices.len() > 0 {
        lemma_latch_stays_set(VoteState::voted(choices.first()), choices.drop_first());
    }
}

/// A vote, accepted or refused, never leaves both options selected on a
/// record that had at most one selected, and keeps a consistent record
/// consistent.
pub proof fn lemma_cast_keeps_exclusive(record: VoteState, choice: Choice)
    ensures
        record.exclusive() ==> record.cast(choice).exclusive(),
        record.consistent() ==> record.cast(choice).consistent(),
{
}

/// Every record reached from initialization by any sequence of attempts has
/// at most one option selected, and an option selected exactly when the
/// latch is set.
pub proof fn lemma_reachable_exclusive(choices: Seq<Choice>)
    ensures
        VoteState::fresh().cast_all(choices).exclusive(),
        VoteState::fresh().cast_all(choices).consistent(),
{
    lemma_first_vote_decides(choices);
}

} // verus!
