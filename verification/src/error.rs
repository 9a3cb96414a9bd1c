//! Errors of the record-parsing boundary.

use vstd::prelude::*;

verus! {

/// A failure to read a record out of its textual form.
#[derive(Debug, PartialEq)]
pub enum ParseError {
    ParseError(String),
}

impl ParseError {
    /// The error as one human-readable line.
    pub fn message(&self) -> (r: String)
        ensures
            match self {
                ParseError::ParseError(d) => r@ == "Failed to parse: "@ + d@,
            },
    {
        match self {
            ParseError::ParseError(d) => String::from_str("Failed to parse: ").concat(d.as_str()),
        }
    }
}

} // verus!
