//! The three requests that the program answers.
//!
//! Each request names the record it works on. Who signed the request and who
//! pays for the record's storage is settled by the host before a request
//! arrives here, so a request carries the record and nothing else.

use vstd::prelude::*;
use crate::error::ErrorCode;
use crate::record::Vote;
use crate::state::{Choice, VoteState};

verus! {

/// What an `initialize` request names: storage for a new record, already
/// allocated, with whatever it happens to hold.
#[derive(Debug)]
pub struct Initialize {
    pub vote: Vote,
}

/// What a vote request names: a record that was initialized before.
#[derive(Debug)]
pub struct Voting {
    pub vote: Vote,
}

/// Sets up the record of a new voter: no option selected, latch open.
/// Never fails.
pub fn initialize(ctx: &mut Initialize) -> (result: Result<(), ErrorCode>)
    ensures
        result is Ok,
        final(ctx).vote@ == VoteState::fresh(),
        final(ctx).vote@.consistent(),
{
    ctx.vote.initialize();
    Ok(())
}

/// Casts the voter's one vote for option A, or fails with
/// [`ErrorCode::AlreadyVoted`] and leaves the record as it was.
pub fn vote_option_a(ctx: &mut Voting) -> (result: Result<(), ErrorCode>)
    ensures
        result == old(ctx).vote@.cast_result(),
        final(ctx).vote@ == old(ctx).vote@.cast(Choice::OptionA),
        final(ctx).vote@.has_voted,
        old(ctx).vote@.consistent() ==> final(ctx).vote@.consistent(),
{
    ctx.vote.cast(Choice::OptionA)
}

/// Casts the voter's one vote for option B, or fails with
/// [`ErrorCode::AlreadyVoted`] and leaves the record as it was.
pub fn vote_option_b(ctx: &mut Voting) -> (result: Result<(), ErrorCode>)
    ensures
        result == old(ctx).vote@.cast_result(),
        final(ctx).vote@ == old(ctx).vote@.cast(Choice::OptionB),
        final(ctx).vote@.has_voted,
        old(ctx).vote@.consistent() ==> final(ctx).vote@.consistent(),
{
    ctx.vote.cast(Choice::OptionB)
}

} // verus!
