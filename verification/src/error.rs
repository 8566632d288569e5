//! The ways in which supervising a tunnel can go wrong.

use vstd::prelude::*;
use vstd::string::*;

verus! {

/// What can go wrong. Only `NotFound` is ever handed to a caller as an
/// error; the others are reported so that they can be logged, and the
/// supervisor carries on.
#[derive(Debug, Clone, Copy, PartialEq, Eq, Structural)]
pub enum SupervisorError {
    /// A tunnel was asked for that the registry does not hold.
    NotFound,
    /// The system could not launch a start command.
    SpawnFailed,
    /// A worker used up its attempts and gave up.
    RetryBudgetExhausted,
    /// A stop command could not be launched or did not exit cleanly.
    StopCommandFailed,
}

impl SupervisorError {
    /// The text that describes this error.
    pub open spec fn text(self) -> Seq<char> {
        match self {
            SupervisorError::NotFound => "no tunnel is registered under this identifier"@,
            SupervisorError::SpawnFailed => "the start command could not be launched"@,
            SupervisorError::RetryBudgetExhausted => "the start command was given up after 5 attempts"@,
            SupervisorError::StopCommandFailed => "the stop command did not exit cleanly"@,
        }
    }

    /// A sentence for a log line or a message to the user.
    pub fn describe(&self) -> (out: String)
        ensures
            out@ == self.text(),
    {
        match self {
            SupervisorError::NotFound => String::from_str(
                "no tunnel is registered under this identifier",
            ),
            SupervisorError::SpawnFailed => String::from_str(
                "the start command could not be launched",
            ),
            SupervisorError::RetryBudgetExhausted => String::from_str(
                "the start command was given up after 5 attempts",
            ),
            SupervisorError::StopCommandFailed => String::from_str(
                "the stop command did not exit cleanly",
            ),
        }
    }
}

} // verus!
