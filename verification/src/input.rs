//! What a line of input means at a menu or at a yes/no question.

use crate::fields::TextField;
use crate::reconcile::SharedText;
use vstd::prelude::*;

verus! {

/// The character of a line that holds exactly one; `None` for any other line.
pub open spec fn only_char(line: Seq<char>) -> Option<char> {
    if line.len() == 1 {
        Some(line[0])
    } else {
        None
    }
}

/// The line is the answer yes: the one character `y` or `Y`.
pub open spec fn says_yes(line: Seq<char>) -> bool {
    only_char(line) == Some('y') || only_char(line) == Some('Y')
}

/// The line is the answer no: the one character `n` or `N`.
pub open spec fn says_no(line: Seq<char>) -> bool {
    only_char(line) == Some('n') || only_char(line) == Some('N')
}

/// What the menu of a single file offers.
#[derive(Clone, Copy, Debug, PartialEq, Eq, Structural)]
pub enum SingleChoice {
    /// Edit a text field.
    Text(TextField),
    /// Edit the year.
    Year,
    /// Edit the track number and then the track count.
    Track,
    /// Write the record to its file.
    Save,
    /// Leave the session.
    Exit,
    /// Anything the menu does not offer.
    Invalid,
}

/// What the menu of a batch offers.
#[derive(Clone, Copy, Debug, PartialEq, Eq, Structural)]
pub enum BatchChoice {
    /// Edit a shared text field.
    Text(SharedText),
    /// Edit the shared year.
    Year,
    /// Edit the shared track count.
    TotalTracks,
    /// Write every record to its file.
    Save,
    /// Leave the session.
    Exit,
    /// Take the number of records as the track count.
    CalculateTotal,
    /// Edit the records one after another.
    EditAll,
    /// List the records and edit one of them.
    ViewFiles,
    /// Anything the menu does not offer.
    Invalid,
}

/// The choice that a character makes at the menu of a single file.
pub open spec fn single_choice_of(c: char) -> SingleChoice {
    if c == '1' {
        SingleChoice::Text(TextField::Title)
    } else if c == '2' {
        SingleChoice::Text(TextField::Artist)
    } else if c == '3' {
        SingleChoice::Text(TextField::AlbumArtist)
    } else if c == '4' {
        SingleChoice::Text(TextField::Album)
    } else if c == '5' {
        SingleChoice::Year
    } else if c == '6' {
        SingleChoice::Track
    } else if c == '7' {
        SingleChoice::Text(TextField::Genre)
    } else if c == '8' {
        SingleChoice::Text(TextField::Comment)
    } else if c == '9' {
        SingleChoice::Save
    } else if c == '0' {
        SingleChoice::Exit
    } else {
        SingleChoice::Invalid
    }
}

/// The choice that a line makes at the menu of a single file: that of its one
/// character, and none where it does not hold exactly one.
pub open spec fn single_choice(line: Seq<char>) -> SingleChoice {
    match only_char(line) {
        Some(c) => single_choice_of(c),
        None => SingleChoice::Invalid,
    }
}

/// The choice that a character makes at the menu of a batch.
pub open spec fn batch_choice_of(c: char) -> BatchChoice {
    if c == '1' {
        BatchChoice::Text(SharedText::Artist)
    } else if c == '2' {
        BatchChoice::Text(SharedText::AlbumArtist)
    } else if c == '3' {
        BatchChoice::Text(SharedText::Album)
    } else if c == '4' {
        BatchChoice::Year
    } else if c == '5' {
        BatchChoice::TotalTracks
    } else if c == '9' {
        BatchChoice::Save
    } else if c == '0' {
        BatchChoice::Exit
    } else if c == 'c' || c == 'C' {
        BatchChoice::CalculateTotal
    } else if c == 'e' || c == 'E' {
        BatchChoice::EditAll
    } else if c == 'v' || c == 'V' {
        BatchChoice::ViewFiles
    } else {
        BatchChoice::Invalid
    }
}

/// The choice that a line makes at the menu of a batch: that of its one
/// character, and none where it does not hold exactly one.
pub open spec fn batch_choice(line: Seq<char>) -> BatchChoice {
    match only_char(line) {
        Some(c) => batch_choice_of(c),
        None => BatchChoice::Invalid,
    }
}

/// The character of a line that holds exactly one.
pub fn read_char(line: &str) -> (r: Option<char>)
    ensures
        r == only_char(line@),
{
    if line.unicode_len() == 1 {
        Some(line.get_char(0))
    } else {
        None
    }
}

/// Whether the line answers yes.
pub fn is_yes(line: &str) -> (r: bool)
    ensures
        r == says_yes(line@),
{
    match read_char(line) {
        Some(c) => c == 'y' || c == 'Y',
        None => false,
    }
}

/// Whether the line answers no.
pub fn is_no(line: &str) -> (r: bool)
    ensures
        r == says_no(line@),
{
    match read_char(line) {
        Some(c) => c == 'n' || c == 'N',
        None => false,
    }
}

/// Reads a selection at the menu of a single file.
pub fn read_single_choice(line: &str) -> (r: SingleChoice)
    ensures
        r == single_choice(line@),
{
    match read_char(line) {
        Some(c) => match c {
            '1' => SingleChoice::Text(TextField::Title),
            '2' => SingleChoice::Text(TextField::Artist),
            '3' => SingleChoice::Text(TextField::AlbumArtist),
            '4' => SingleChoice::Text(TextField::Album),
            '5' => SingleChoice::Year,
            '6' => SingleChoice::Track,
            '7' => SingleChoice::Text(TextField::Genre),
            '8' => SingleChoice::Text(TextField::Comment),
            '9' => SingleChoice::Save,
            '0' => SingleChoice::Exit,
            _ => SingleChoice::Invalid,
        },
        None => SingleChoice::Invalid,
    }
}

/// Reads a selection at the menu of a batch.
pub fn read_batch_choice(line: &str) -> (r: BatchChoice)
    ensures
        r == batch_choice(line@),
{
    match read_char(line) {
        Some(c) => match c {
            '1' => BatchChoice::Text(SharedText::Artist),
            '2' => BatchChoice::Text(SharedText::AlbumArtist),
            '3' => BatchChoice::Text(SharedText::Album),
            '4' => BatchChoice::Year,
            '5' => BatchChoice::TotalTracks,
            '9' => BatchChoice::Save,
            '0' => BatchChoice::Exit,
            'c' | 'C' => BatchChoice::CalculateTotal,
            'e' | 'E' => BatchChoice::EditAll,
            'v' | 'V' => BatchChoice::ViewFiles,
            _ => BatchChoice::Invalid,
        },
        None => BatchChoice::Invalid,
    }
}

} // verus!
