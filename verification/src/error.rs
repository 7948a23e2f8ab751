//! What can go wrong with a journal once its bytes are at hand.

use vstd::prelude::*;

verus! {

/// Why an operation on a journal was refused.
#[derive(Debug, Clone, Copy, PartialEq, Eq, Structural)]
pub enum JournalError {
    /// The journal has content that is not a list of tasks.
    Decode,
    /// The position names no task of the journal.
    InvalidInput,
}

impl JournalError {
    /// The words that tell the error to a person.
    pub open spec fn message_text(self) -> Seq<char> {
        match self {
            JournalError::Decode => "Malformed journal"@,
            JournalError::InvalidInput => "Invalid Task ID"@,
        }
    }

    /// The words that tell the error to a person.
    pub fn message(&self) -> (text: &'static str)
        ensures
            text@ == self.message_text(),
    {
        match self {
            JournalError::Decode => "Malformed journal",
            JournalError::InvalidInput => "Invalid Task ID",
        }
    }
}

} // verus!
