//! The ways in which the shell refuses an input.

use vstd::prelude::*;

verus! {

/// An input that the shell cannot go on from. Each one ends the session: the
/// shell retries nothing.
#[derive(Clone, Copy, Debug, PartialEq, Eq, Structural)]
pub enum ShellError {
    /// What a command printed is not valid UTF-8.
    Decode,
    /// A key event that the transition table does not hold.
    UnhandledEvent,
}

impl ShellError {
    /// A sentence that names the error.
    pub fn message(&self) -> (text: String)
        ensures
            text@ == match *self {
                ShellError::Decode => "command output is not valid UTF-8"@,
                ShellError::UnhandledEvent => "unhandled key event"@,
            },
    {
        match self {
            ShellError::Decode => "command output is not valid UTF-8".to_owned(),
            ShellError::UnhandledEvent => "unhandled key event".to_owned(),
        }
    }
}

} // verus!
