//! The status line: what the last operation has to tell the user.

use vstd::prelude::*;

verus! {

/// What a session reports at the next showing of its menu.
#[derive(Clone, Copy, Debug, PartialEq, Eq, Structural)]
pub enum Status {
    /// Nothing to report.
    Clear,
    /// Every write of the last save succeeded.
    SaveSuccessful,
    /// The write of the single file failed.
    WriteFailed,
    /// At least one write of the last batch save failed.
    BatchWriteFailed,
    /// The text entered for a numeric field is not a number of that field.
    NotANumber,
    /// The menu does not offer what was selected.
    InvalidOption,
    /// No record has the number that was selected.
    InvalidSelection,
    /// The working set has more records than a track count can hold.
    TooManyFiles,
}

impl Status {
    /// The text of the status line.
    pub open spec fn text(self) -> Seq<char> {
        match self {
            Status::Clear => ""@,
            Status::SaveSuccessful => "Save Successful!"@,
            Status::WriteFailed =>
                "WARNING!\nFailed to write tag data. Returning to selection\nPlease verify the provided file still exists"@,
            Status::BatchWriteFailed =>
                "WARNING!\nFailed to write tag data. Returning to selection\nPlease verify the provided directory is intact!"@,
            Status::NotANumber => "Error: Not a number"@,
            Status::InvalidOption => "Error: Invalid option"@,
            Status::InvalidSelection => "Error: Invalid selection"@,
            Status::TooManyFiles => "Error: Too many files???"@,
        }
    }

    /// The text of the status line; empty where there is nothing to report.
    pub fn message(self) -> (r: &'static str)
        ensures
            r@ == self.text(),
    {
        match self {
            Status::Clear => "",
            Status::SaveSuccessful => "Save Successful!",
            Status::WriteFailed =>
                "WARNING!\nFailed to write tag data. Returning to selection\nPlease verify the provided file still exists",
            Status::BatchWriteFailed =>
                "WARNING!\nFailed to write tag data. Returning to selection\nPlease verify the provided directory is intact!",
            Status::NotANumber => "Error: Not a number",
            Status::InvalidOption => "Error: Invalid option",
            Status::InvalidSelection => "Error: Invalid selection",
            Status::TooManyFiles => "Error: Too many files???",
        }
    }
}

} // verus!
