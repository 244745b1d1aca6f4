//! The failures of reading an item from a tab-delimited record.

use vstd::prelude::*;
use vstd::string::*;
use crate::decimal::{decimal_string, decimal_text};

verus! {

/// Why a record was not read as an item. Each variant carries the number
/// of fields that the record has.
#[derive(Clone, Copy, Debug, PartialEq, Eq, Structural)]
pub enum ItemParsingError {
    /// The record has fewer than five fields.
    TooFewFields(usize),
    /// The record has more than five fields.
    TooManyFields(usize),
}

impl ItemParsingError {
    /// What `to_string` writes for the error.
    pub open spec fn message(self) -> Seq<char> {
        match self {
            ItemParsingError::TooFewFields(fields) => "Item contains "@ + decimal_text(
                fields as nat,
            ) + " fields, which is not enough. Items MUST contain 5 fields."@,
            ItemParsingError::TooManyFields(fields) => "Item contains "@ + decimal_text(
                fields as nat,
            ) + " fields, which is too many. Items MUST contain 5 fields."@,
        }
    }

    /// The message for a reader: how many fields were found, and how many
    /// a record must have.
    pub fn to_string(&self) -> (message: String)
        ensures
            message@ == self.message(),
    {
        let mut message = String::new();
        message.append("Item contains ");
        match self {
            ItemParsingError::TooFewFields(fields) => {
                let count = decimal_string(*fields as u64);
                message.append(count.as_str());
                message.append(" fields, which is not enough. Items MUST contain 5 fields.");
            },
            ItemParsingError::TooManyFields(fields) => {
                let count = decimal_string(*fields as u64);
                message.append(count.as_str());
                message.append(" fields, which is too many. Items MUST contain 5 fields.");
            },
        }
        message
    }
}

} // verus!
