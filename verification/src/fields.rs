//! The metadata fields of one audio file.

use vstd::prelude::*;

verus! {

/// The fields that hold text.
#[derive(Clone, Copy, Debug, PartialEq, Eq, Structural)]
pub enum TextField {
    Title,
    Artist,
    AlbumArtist,
    Album,
    Genre,
    Comment,
}

/// The decoded tag of one file. Every field may be absent, which is not the
/// same as holding an empty text or a zero.
#[derive(Clone, Debug, PartialEq, Eq)]
pub struct TagFields {
    pub title: Option<String>,
    pub artist: Option<String>,
    pub album_artist: Option<String>,
    pub album: Option<String>,
    pub year: Option<i32>,
    pub track_number: Option<u16>,
    pub total_tracks: Option<u16>,
    pub genre: Option<String>,
    pub comment: Option<String>,
}

/// The mathematical value of a [`TagFields`].
pub struct FieldsModel {
    pub title: Option<Seq<char>>,
    pub artist: Option<Seq<char>>,
    pub album_artist: Option<Seq<char>>,
    pub album: Option<Seq<char>>,
    pub year: Option<i32>,
    pub track_number: Option<u16>,
    pub total_tracks: Option<u16>,
    pub genre: Option<Seq<char>>,
    pub comment: Option<Seq<char>>,
}

/// The characters of an optional text.
pub open spec fn text_model(v: Option<String>) -> Option<Seq<char>> {
    match v {
        Some(t) => Some(t@),
        None => None,
    }
}

/// What is shown for a text field: its text, or `<none>` where it is absent.
pub open spec fn shown_text(v: Option<Seq<char>>) -> Seq<char> {
    match v {
        Some(t) => t,
        None => "<none>"@,
    }
}

/// What a prompt for a text field is filled with: its text, or nothing where
/// it is absent.
pub open spec fn editable_text(v: Option<Seq<char>>) -> Seq<char> {
    match v {
        Some(t) => t,
        None => Seq::empty(),
    }
}

/// What stands for a year in display and comparison: zero where it is absent.
pub open spec fn year_or_zero(v: Option<i32>) -> i32 {
    match v {
        Some(y) => y,
        None => 0,
    }
}

/// What stands for a track number or a track count in display and
/// comparison: zero where it is absent.
pub open spec fn count_or_zero(v: Option<u16>) -> u16 {
    match v {
        Some(n) => n,
        None => 0,
    }
}

impl FieldsModel {
    /// A tag with every field absent.
    pub open spec fn empty() -> FieldsModel {
        FieldsModel {
            title: None,
            artist: None,
            album_artist: None,
            album: None,
            year: None,
            track_number: None,
            total_tracks: None,
            genre: None,
            comment: None,
        }
    }

    /// The text field `f`.
    pub open spec fn text(self, f: TextField) -> Option<Seq<char>> {
        match f {
            TextField::Title => self.title,
            TextField::Artist => self.artist,
            TextField::AlbumArtist => self.album_artist,
            TextField::Album => self.album,
            TextField::Genre => self.genre,
            TextField::Comment => self.comment,
        }
    }

    /// This tag with the text field `f` replaced by `v`.
    pub open spec fn with_text(self, f: TextField, v: Option<Seq<char>>) -> FieldsModel {
        match f {
            TextField::Title => FieldsModel { title: v, ..self },
            TextField::Artist => FieldsModel { artist: v, ..self },
            TextField::AlbumArtist => FieldsModel { album_artist: v, ..self },
            TextField::Album => FieldsModel { album: v, ..self },
            TextField::Genre => FieldsModel { genre: v, ..self },
            TextField::Comment => FieldsModel { comment: v, ..self },
        }
    }

    /// This tag with the year replaced by `v`.
    pub open spec fn with_year(self, v: Option<i32>) -> FieldsModel {
        FieldsModel { year: v, ..self }
    }

    /// This tag with the track number replaced by `v`.
    pub open spec fn with_track_number(self, v: Option<u16>) -> FieldsModel {
        FieldsModel { track_number: v, ..self }
    }

    /// This tag with the track count replaced by `v`.
    pub open spec fn with_total_tracks(self, v: Option<u16>) -> FieldsModel {
        FieldsModel { total_tracks: v, ..self }
    }
}

impl View for TagFields {
    type V = FieldsModel;

    open spec fn view(&self) -> FieldsModel {
        FieldsModel {
            title: text_model(self.title),
            artist: text_model(self.artist),
            album_artist: text_model(self.album_artist),
            album: text_model(self.album),
            year: self.year,
            track_number: self.track_number,
            total_tracks: self.total_tracks,
            genre: text_model(self.genre),
            comment: text_model(self.comment),
        }
    }
}

/// The text shown for an absent text field.
pub fn none_text() -> (r: &'static str)
    ensures
        r@ == "<none>"@,
{
    "<none>"
}

impl TagFields {
    /// A tag with every field absent.
    pub fn new() -> (r: TagFields)
        ensures
            r@ == FieldsModel::empty(),
    {
        TagFields {
            title: None,
            artist: None,
            album_artist: None,
            album: None,
            year: None,
            track_number: None,
            total_tracks: None,
            genre: None,
            comment: None,
        }
    }

    /// The text field `f`.
    pub fn text(&self, f: TextField) -> (r: &Option<String>)
        ensures
            text_model(*r) == self@.text(f),
    {
        match f {
            TextField::Title => &self.title,
            TextField::Artist => &self.artist,
            TextField::AlbumArtist => &self.album_artist,
            TextField::Album => &self.album,
            TextField::Genre => &self.genre,
            TextField::Comment => &self.comment,
        }
    }

    /// Replaces the text field `f` by `v` and leaves the other fields as they
    /// are.
    pub fn set_text(&mut self, f: TextField, v: String)
        ensures
            final(self)@ == old(self)@.with_text(f, Some(v@)),
    {
        match f {
            TextField::Title => self.title = Some(v),
            TextField::Artist => self.artist = Some(v),
            TextField::AlbumArtist => self.album_artist = Some(v),
            TextField::Album => self.album = Some(v),
            TextField::Genre => self.genre = Some(v),
            TextField::Comment => self.comment = Some(v),
        }
    }

    /// Replaces the year and leaves the other fields as they are.
    pub fn set_year(&mut self, year: i32)
        ensures
            final(self)@ == old(self)@.with_year(Some(year)),
    {
        self.year = Some(year);
    }

    /// Replaces the track number and leaves the other fields as they are.
    pub fn set_track_number(&mut self, number: u16)
        ensures
            final(self)@ == old(self)@.with_track_number(Some(number)),
    {
        self.track_number = Some(number);
    }

    /// Replaces the track count and leaves the other fields as they are.
    pub fn set_total_tracks(&mut self, total: u16)
        ensures
            final(self)@ == old(self)@.with_total_tracks(Some(total)),
    {
        self.total_tracks = Some(total);
    }

    /// What is shown for the text field `f`: its text, or `<none>`.
    pub fn shown(&self, f: TextField) -> (r: String)
        ensures
            r@ == shown_text(self@.text(f)),
    {
        match self.text(f) {
            Some(t) => t.clone(),
            None => none_text().to_owned(),
        }
    }

    /// What a prompt for the text field `f` is filled with: its text, or
    /// nothing.
    pub fn editable(&self, f: TextField) -> (r: String)
        ensures
            r@ == editable_text(self@.text(f)),
    {
        match self.text(f) {
            Some(t) => t.clone(),
            None => String::new(),
        }
    }

    /// The year, or zero where it is absent.
    pub fn shown_year(&self) -> (r: i32)
        ensures
            r == year_or_zero(self@.year),
    {
        match self.year {
            Some(y) => y,
            None => 0,
        }
    }

    /// The track number, or zero where it is absent.
    pub fn shown_track_number(&self) -> (r: u16)
        ensures
            r == count_or_zero(self@.track_number),
    {
        match self.track_number {
            Some(n) => n,
            None => 0,
        }
    }

    /// The track count, or zero where it is absent.
    pub fn shown_total_tracks(&self) -> (r: u16)
        ensures
            r == count_or_zero(self@.total_tracks),
    {
        match self.total_tracks {
            Some(n) => n,
            None => 0,
        }
    }
}

} // verus!
