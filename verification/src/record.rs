//! The stored record and the two operations that write it.

use vstd::prelude::*;
use crate::error::ErrorCode;
use crate::state::{Choice, VoteState};

verus! {

/// The record kept for one voter.
#[derive(Debug, Clone, Copy, PartialEq, Eq, Structural)]
pub struct Vote {
    option_a: bool,
    option_b: bool,
    has_voted: bool,
}

impl View for Vote {
    type V = VoteState;

    closed spec fn view(&self) -> VoteState {
        VoteState {
            option_a: self.option_a,
            option_b: self.option_b,
            has_voted: self.has_voted,
        }
    }
}

impl Vote {
    /// A record with the given flags, as read from storage.
    pub fn new(option_a: bool, option_b: bool, has_voted: bool) -> (vote: Vote)
        ensures
            vote@ == (VoteState { option_a, option_b, has_voted }),
    {
        Vote { option_a, option_b, has_voted }
    }

    /// Whether the vote selects option A.
    pub fn option_a(&self) -> (flag: bool)
        ensures
            flag == self@.option_a,
    {
        self.option_a
    }

    /// Whether the vote selects option B.
    pub fn option_b(&self) -> (flag: bool)
        ensures
            flag == self@.option_b,
    {
        self.option_b
    }

    /// Whether a vote has been cast.
    pub fn has_voted(&self) -> (flag: bool)
        ensures
            flag == self@.has_voted,
    {
        self.has_voted
    }

    /// Clears all three flags, whatever the storage held before.
    pub fn initialize(&mut self)
        ensures
            final(self)@ == VoteState::fresh(),
            final(self)@.consistent(),
    {
        self.option_a = false;
        self.option_b = false;
        self.has_voted = false;
    }

    /// Casts a vote for `choice`.
    ///
    /// A record whose latch is set refuses the vote and is left untouched.
    /// Otherwise the chosen option is set, the other one is cleared, and the
    /// latch closes.
    pub fn cast(&mut self, choice: Choice) -> (result: Result<(), ErrorCode>)
        ensures
            result == old(self)@.cast_result(),
            final(self)@ == old(self)@.cast(choice),
            final(self)@.has_voted,
            old(self)@.consistent() ==> final(self)@.consistent(),
    {
        if self.has_voted {
            return Err(ErrorCode::AlreadyVoted);
        }
        match choice {
            Choice::OptionA => {
                self.option_a = true;
                self.option_b = false;
            },
            Choice::OptionB => {
                self.option_a = false;
                self.option_b = true;
            },
        }
        self.has_voted = true;
        Ok(())
    }
}

} // verus!
