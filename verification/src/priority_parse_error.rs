//! The failure of reading a priority from text.

use vstd::prelude::*;
use vstd::string::*;

verus! {

/// Why a text was not read as a priority.
#[derive(Debug)]
pub enum PriorityParseError {
    /// The text, carried as it was given, is none of the four spellings.
    InvalidPriority(String),
}

impl PriorityParseError {
    /// The text that was refused.
    pub open spec fn text(&self) -> Seq<char> {
        match self {
            PriorityParseError::InvalidPriority(text) => text@,
        }
    }

    /// What `to_string` writes for a refused text.
    pub open spec fn message(text: Seq<char>) -> Seq<char> {
        text + " is not a valid priority level"@
    }

    /// The message for a reader: the refused text and what is wrong with it.
    pub fn to_string(&self) -> (message: String)
        ensures
            message@ == Self::message(self.text()),
    {
        match self {
            PriorityParseError::InvalidPriority(text) => {
                let mut message = text.clone();
                message.append(" is not a valid priority level");
                message
            },
        }
    }
}

} // verus!
