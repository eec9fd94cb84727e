//! The failure taxonomy of the library.
//!
//! None of these failures is retried: a failure during one step of a
//! multi-step sequence terminates the sequence, and the caller sees the
//! error unchanged.

use vstd::prelude::*;
use vstd::string::StringExecFns;

verus! {

/// Everything that can go wrong while turning a request into an
/// argument list for the search executable.
#[derive(Clone, Copy, Debug, PartialEq, Eq, Structural)]
pub enum OpError {
    /// The operation name is not in the closed catalog.
    UnknownOperation,
    /// A parameter fell outside its schema.
    InvalidParameter,
    /// Candidate narrowing was given neither ranked nor mandatory names.
    EmptyCandidateSet,
    /// The external ranking collaborator failed.
    RankingFailure,
    /// The external model-invocation collaborator failed.
    ModelInvocationFailure,
    /// The external process-invocation collaborator failed.
    ProcessInvocationFailure,
}

impl OpError {
    /// The wording of each failure, as the caller reports it.
    pub open spec fn spec_describe(self) -> Seq<char> {
        match self {
            OpError::UnknownOperation => "unknown operation"@,
            OpError::InvalidParameter => "invalid parameter"@,
            OpError::EmptyCandidateSet => "empty candidate set"@,
            OpError::RankingFailure => "ranking failure"@,
            OpError::ModelInvocationFailure => "model invocation failure"@,
            OpError::ProcessInvocationFailure => "process invocation failure"@,
        }
    }

    pub fn describe(&self) -> (r: String)
        ensures
            r@ == self.spec_describe(),
    {
        match *self {
            OpError::UnknownOperation => String::from_str("unknown operation"),
            OpError::InvalidParameter => String::from_str("invalid parameter"),
            OpError::EmptyCandidateSet => String::from_str("empty candidate set"),
            OpError::RankingFailure => String::from_str("ranking failure"),
            OpError::ModelInvocationFailure => String::from_str("model invocation failure"),
            OpError::ProcessInvocationFailure => String::from_str("process invocation failure"),
        }
    }
}

} // verus!
