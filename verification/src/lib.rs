//! A two-option ballot kept in one record per voter.
//!
//! A record holds three flags: one for each option and a latch that closes
//! once a vote is cast. It is initialized once and then accepts exactly one
//! vote; every later attempt is refused and changes nothing.

pub mod error;
pub mod instructions;
pub mod invariants;
pub mod record;
pub mod state;

pub use error::ErrorCode;
pub use instructions::{initialize, vote_option_a, vote_option_b, Initialize, Voting};
pub use record::Vote;
pub use state::{Choice, VoteState};
