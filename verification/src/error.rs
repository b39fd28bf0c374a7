//! The one way in which a request can fail.

use vstd::prelude::*;

verus! {

/// Why a request was refused.
#[derive(Debug, Clone, Copy, PartialEq, Eq, Structural)]
pub enum ErrorCode {
    /// The record already holds a vote.
    AlreadyVoted,
}

impl ErrorCode {
    /// The text shown to the voter whose request was refused.
    pub fn message(&self) -> (text: String)
        ensures
            text@ == "You have already voted"@,
    {
        match self {
            ErrorCode::AlreadyVoted => "You have already voted".to_owned(),
        }
    }
}

} // verus!
