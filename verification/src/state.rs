//! The record as a mathematical value, and what each operation makes of it.

use vstd::prelude::*;
use crate::error::ErrorCode;

verus! {

/// One of the two options on the ballot.
#[derive(Debug, Clone, Copy, PartialEq, Eq, Structural)]
pub enum Choice {
    OptionA,
    OptionB,
}

/// The three flags of a record.
pub struct VoteState {
    /// The vote selects option A.
    pub option_a: bool,
    /// The vote selects option B.
    pub option_b: bool,
    /// A vote has been cast. Once set, the latch stays set.
    pub has_voted: bool,
}

impl VoteState {
    /// The record of a voter who has not voted yet.
    pub open spec fn fresh() -> VoteState {
        VoteState { option_a: false, option_b: false, has_voted: false }
    }

    /// The record of a voter who chose `choice`.
    pub open spec fn voted(choice: Choice) -> VoteState {
        VoteState {
            option_a: choice == Choice::OptionA,
            option_b: choice == Choice::OptionB,
            has_voted: true,
        }
    }

    /// The answer to an attempt to vote on this record: the attempt is
    /// refused exactly when the latch is already set.
    pub open spec fn cast_result(self) -> Result<(), ErrorCode> {
        if self.has_voted {
            Err(ErrorCode::AlreadyVoted)
        } else {
            Ok(())
        }
    }

    /// The record after an attempt to vote for `choice`: a refused attempt
    /// leaves it as it was, an accepted one overwrites all three flags.
    pub open spec fn cast(self, choice: Choice) -> VoteState {
        if self.has_voted {
            self
        } else {
            VoteState::voted(choice)
        }
    }

    /// The record after one attempt for each entry of `choices`, in order.
    pub open spec fn cast_all(self, choices: Seq<Choice>) -> VoteState
        decreases choices.len(),
    {
        if choices.len() == 0 {
            self
        } else {
            self.cast(choices.first()).cast_all(choices.drop_first())
        }
    }

    /// At most one option is selected.
    pub open spec fn exclusive(self) -> bool {
        !(self.option_a && self.option_b)
    }

    /// The record is one that the operations produce: at most one option is
    /// selected, and an option is selected exactly when the latch is set.
    pub open spec fn consistent(self) -> bool {
        &&& self.exclusive()
        &&& self.has_voted <==> (self.option_a || self.option_b)
    }
}

} // verus!
