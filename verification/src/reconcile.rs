//! The group view: one value for each shared field, summarising a whole
//! working set.

use crate::fields::{count_or_zero, none_text, shown_text, year_or_zero, TextField};
use crate::record::{records_model, MusicFileRecord, RecordModel};
use vstd::prelude::*;

verus! {

/// The text fields that a batch edits for all records at once.
#[derive(Clone, Copy, Debug, PartialEq, Eq, Structural)]
pub enum SharedText {
    Artist,
    AlbumArtist,
    Album,
}

impl SharedText {
    /// The field of a record that this shared field stands for.
    pub open spec fn field(self) -> TextField {
        match self {
            SharedText::Artist => TextField::Artist,
            SharedText::AlbumArtist => TextField::AlbumArtist,
            SharedText::Album => TextField::Album,
        }
    }

    /// The field of a record that this shared field stands for.
    #[verifier::when_used_as_spec(field)]
    pub fn text_field(self) -> (r: TextField)
        ensures
            r == self.field(),
    {
        match self {
            SharedText::Artist => TextField::Artist,
            SharedText::AlbumArtist => TextField::AlbumArtist,
            SharedText::Album => TextField::Album,
        }
    }
}

/// The text that stands for disagreement among the records.
pub fn differs_text() -> (r: &'static str)
    ensures
        r@ == "<differs>"@,
{
    "<differs>"
}

/// The one text that `values` agree on: `<none>` where there is no value at
/// all, `<differs>` where two of them are not the same.
pub open spec fn common_text(values: Seq<Seq<char>>) -> Seq<char> {
    if values.len() == 0 {
        "<none>"@
    } else if forall|i: int| 0 <= i < values.len() ==> #[trigger] values[i] == values[0] {
        values[0]
    } else {
        "<differs>"@
    }
}

/// The one year that `values` agree on: zero where there is no value at all
/// or where two of them are not the same. Zero thus stands for disagreement
/// as well as for agreement on zero or on no year at all; the group view
/// cannot tell these apart.
pub open spec fn common_year(values: Seq<i32>) -> i32 {
    if values.len() > 0 && forall|i: int|
        0 <= i < values.len() ==> #[trigger] values[i] == values[0] {
        values[0]
    } else {
        0
    }
}

/// The one count that `values` agree on: zero where there is no value at all
/// or where two of them are not the same. As with the year, zero stands for
/// disagreement as well as for agreement on zero or on no count at all.
pub open spec fn common_count(values: Seq<u16>) -> u16 {
    if values.len() > 0 && forall|i: int|
        0 <= i < values.len() ==> #[trigger] values[i] == values[0] {
        values[0]
    } else {
        0
    }
}

/// What each record shows for the text field `f`.
pub open spec fn shown_texts(records: Seq<RecordModel>, f: TextField) -> Seq<Seq<char>> {
    Seq::new(records.len(), |i: int| shown_text(records[i].fields.text(f)))
}

/// What each record shows for its year.
pub open spec fn shown_years(records: Seq<RecordModel>) -> Seq<i32> {
    Seq::new(records.len(), |i: int| year_or_zero(records[i].fields.year))
}

/// What each record shows for its track count.
pub open spec fn shown_totals(records: Seq<RecordModel>) -> Seq<u16> {
    Seq::new(records.len(), |i: int| count_or_zero(records[i].fields.total_tracks))
}

/// The group value of the text field `f`.
pub open spec fn group_text(records: Seq<RecordModel>, f: TextField) -> Seq<char> {
    common_text(shown_texts(records, f))
}

/// The group value of the year.
pub open spec fn group_year(records: Seq<RecordModel>) -> i32 {
    common_year(shown_years(records))
}

/// The group value of the track count.
pub open spec fn group_total(records: Seq<RecordModel>) -> u16 {
    common_count(shown_totals(records))
}

/// The summary of a working set: one value for each shared field.
#[derive(Clone, Debug, PartialEq, Eq)]
pub struct GroupView {
    pub artist: String,
    pub album_artist: String,
    pub album: String,
    pub year: i32,
    pub total_tracks: u16,
}

/// The mathematical value of a [`GroupView`].
pub struct GroupModel {
    pub artist: Seq<char>,
    pub album_artist: Seq<char>,
    pub album: Seq<char>,
    pub year: i32,
    pub total_tracks: u16,
}

impl GroupModel {
    /// The value of the shared text field `f`.
    pub open spec fn text(self, f: SharedText) -> Seq<char> {
        match f {
            SharedText::Artist => self.artist,
            SharedText::AlbumArtist => self.album_artist,
            SharedText::Album => self.album,
        }
    }

    /// This view with the shared text field `f` replaced by `v`.
    pub open spec fn with_text(self, f: SharedText, v: Seq<char>) -> GroupModel {
        match f {
            SharedText::Artist => GroupModel { artist: v, ..self },
            SharedText::AlbumArtist => GroupModel { album_artist: v, ..self },
            SharedText::Album => GroupModel { album: v, ..self },
        }
    }

    /// This view with the year replaced by `v`.
    pub open spec fn with_year(self, v: i32) -> GroupModel {
        GroupModel { year: v, ..self }
    }

    /// This view with the track count replaced by `v`.
    pub open spec fn with_total_tracks(self, v: u16) -> GroupModel {
        GroupModel { total_tracks: v, ..self }
    }
}

impl View for GroupView {
    type V = GroupModel;

    open spec fn view(&self) -> GroupModel {
        GroupModel {
            artist: self.artist@,
            album_artist: self.album_artist@,
            album: self.album@,
            year: self.year,
            total_tracks: self.total_tracks,
        }
    }
}

/// The group view of a working set: each shared field reconciled.
pub open spec fn group_of(records: Seq<RecordModel>) -> GroupModel {
    GroupModel {
        artist: group_text(records, TextField::Artist),
        album_artist: group_text(records, TextField::AlbumArtist),
        album: group_text(records, TextField::Album),
        year: group_year(records),
        total_tracks: group_total(records),
    }
}

impl GroupView {
    /// The value of the shared text field `f`.
    pub fn text(&self, f: SharedText) -> (r: &String)
        ensures
            r@ == self@.text(f),
    {
        match f {
            SharedText::Artist => &self.artist,
            SharedText::AlbumArtist => &self.album_artist,
            SharedText::Album => &self.album,
        }
    }

    /// Replaces the value of the shared text field `f` by `v`.
    pub fn set_text(&mut self, f: SharedText, v: String)
        ensures
            final(self)@ == old(self)@.with_text(f, v@),
    {
        match f {
            SharedText::Artist => self.artist = v,
            SharedText::AlbumArtist => self.album_artist = v,
            SharedText::Album => self.album = v,
        }
    }
}

/// Reconciles the text field `f` over `records`: the text that every record
/// shows, or `<differs>` as soon as two records do not show the same.
pub fn reconcile_text(records: &Vec<MusicFileRecord>, f: TextField) -> (group: String)
    ensures
        group@ == group_text(records_model(records@), f),
{
    let ghost values = shown_texts(records_model(records@), f);
    let none: String = none_text().to_owned();
    if records.len() == 0 {
        return none;
    }
    let differs: String = differs_text().to_owned();
    let mut group: String = records[0].fields.shown(f);
    let mut i: usize = 1;
    while i < records.len()
        invariant
            1 <= i <= records.len(),
            values == shown_texts(records_model(records@), f),
            none@ == "<none>"@,
            differs@ == "<differs>"@,
            group@ == common_text(values.subrange(0, i as int)),
        decreases records.len() - i,
    {
        let ghost seen = values.subrange(0, i as int);
        let ghost next = values.subrange(0, i + 1);
        assert(next[0] == seen[0]);
        assert(next[i as int] == values[i as int]);
        assert(forall|j: int| 0 <= j < i ==> next[j] == #[trigger] seen[j]);
        if !(group == differs) {
            let same: bool = match records[i].fields.text(f) {
                Some(t) => *t == group,
                None => none == group,
            };
            if !same {
                group = differs.clone();
            }
        }
        i = i + 1;
    }
    assert(values.subrange(0, i as int) =~= values);
    group
}

/// Reconciles the year over `records`: the year that every record shows, or
/// zero as soon as two records do not show the same.
pub fn reconcile_year(records: &Vec<MusicFileRecord>) -> (group: i32)
    ensures
        group == group_year(records_model(records@)),
{
    let ghost values = shown_years(records_model(records@));
    if records.len() == 0 {
        return 0;
    }
    let mut group: i32 = records[0].fields.shown_year();
    let mut i: usize = 1;
    while i < records.len()
        invariant
            1 <= i <= records.len(),
            values == shown_years(records_model(records@)),
            group == common_year(values.subrange(0, i as int)),
        decreases records.len() - i,
    {
        let ghost seen = values.subrange(0, i as int);
        let ghost next = values.subrange(0, i + 1);
        assert(next[0] == seen[0]);
        assert(next[i as int] == values[i as int]);
        assert(forall|j: int| 0 <= j < i ==> next[j] == #[trigger] seen[j]);
        if group != 0 && records[i].fields.shown_year() != group {
            group = 0;
        }
        i = i + 1;
    }
    assert(values.subrange(0, i as int) =~= values);
    group
}

/// Reconciles the track count over `records`: the count that every record
/// shows, or zero as soon as two records do not show the same.
pub fn reconcile_total_tracks(records: &Vec<MusicFileRecord>) -> (group: u16)
    ensures
        group == group_total(records_model(records@)),
{
    let ghost values = shown_totals(records_model(records@));
    if records.len() == 0 {
        return 0;
    }
    let mut group: u16 = records[0].fields.shown_total_tracks();
    let mut i: usize = 1;
    while i < records.len()
        invariant
            1 <= i <= records.len(),
            values == shown_totals(records_model(records@)),
            group == common_count(values.subrange(0, i as int)),
        decreases records.len() - i,
    {
        let ghost seen = values.subrange(0, i as int);
        let ghost next = values.subrange(0, i + 1);
        assert(next[0] == seen[0]);
        assert(next[i as int] == values[i as int]);
        assert(forall|j: int| 0 <= j < i ==> next[j] == #[trigger] seen[j]);
        if group != 0 && records[i].fields.shown_total_tracks() != group {
            group = 0;
        }
        i = i + 1;
    }
    assert(values.subrange(0, i as int) =~= values);
    group
}

/// Reconciles every shared field over `records`.
pub fn reconcile(records: &Vec<MusicFileRecord>) -> (group: GroupView)
    ensures
        group@ == group_of(records_model(records@)),
{
    GroupView {
        artist: reconcile_text(records, TextField::Artist),
        album_artist: reconcile_text(records, TextField::AlbumArtist),
        album: reconcile_text(records, TextField::Album),
        year: reconcile_year(records),
        total_tracks: reconcile_total_tracks(records),
    }
}

/// Two records that do not show the same text for a field reconcile to
/// `<differs>`.
pub proof fn lemma_pair_differs(a: RecordModel, b: RecordModel, f: TextField)
    requires
        shown_text(a.fields.text(f)) != shown_text(b.fields.text(f)),
    ensures
        group_text(seq![a, b], f) == "<differs>"@,
{
    let values = shown_texts(seq![a, b], f);
    assert(values[0] == shown_text(a.fields.text(f)));
    assert(values[1] == shown_text(b.fields.text(f)));
}

/// Records that all show the text `v` for a field reconcile to `v`, whatever
/// their number and order.
pub proof fn lemma_all_share(records: Seq<RecordModel>, f: TextField, v: Seq<char>)
    requires
        records.len() > 0,
        forall|i: int| 0 <= i < records.len() ==> shown_text(#[trigger] records[i].fields.text(f)) == v,
    ensures
        group_text(records, f) == v,
{
    let values = shown_texts(records, f);
    assert(values[0] == shown_text(records[0].fields.text(f)));
    assert forall|i: int| 0 <= i < values.len() implies #[trigger] values[i] == values[0] by {
        assert(values[i] == shown_text(records[i].fields.text(f)));
    }
}

/// Records in which a field is absent throughout reconcile to `<none>`.
pub proof fn lemma_all_absent(records: Seq<RecordModel>, f: TextField)
    requires
        forall|i: int| 0 <= i < records.len() ==> #[trigger] records[i].fields.text(f) is None,
    ensures
        group_text(records, f) == "<none>"@,
{
    if records.len() > 0 {
        lemma_all_share(records, f, "<none>"@);
    }
}

/// A field on which two records disagree reconciles to `<differs>`, wherever
/// in the working set the two stand.
pub proof fn lemma_any_disagreement(records: Seq<RecordModel>, f: TextField, i: int, j: int)
    requires
        0 <= i < records.len(),
        0 <= j < records.len(),
        shown_text(records[i].fields.text(f)) != shown_text(records[j].fields.text(f)),
    ensures
        group_text(records, f) == "<differs>"@,
{
    let values = shown_texts(records, f);
    assert(values[i] == shown_text(records[i].fields.text(f)));
    assert(values[j] == shown_text(records[j].fields.text(f)));
}

/// Records that all show the year `y` reconcile to `y`; records that all show
/// the track count `n` reconcile to `n`.
pub proof fn lemma_numbers_shared(records: Seq<RecordModel>, y: i32, n: u16)
    requires
        records.len() > 0,
    ensures
        (forall|i: int| 0 <= i < records.len() ==> year_or_zero(#[trigger] records[i].fields.year) == y)
            ==> group_year(records) == y,
        (forall|i: int|
            0 <= i < records.len() ==> count_or_zero(#[trigger] records[i].fields.total_tracks) == n)
            ==> group_total(records) == n,
{
    let years = shown_years(records);
    let totals = shown_totals(records);
    if forall|i: int| 0 <= i < records.len() ==> year_or_zero(#[trigger] records[i].fields.year) == y {
        assert(years[0] == year_or_zero(records[0].fields.year));
        assert forall|i: int| 0 <= i < years.len() implies #[trigger] years[i] == years[0] by {
            assert(years[i] == year_or_zero(records[i].fields.year));
        }
    }
    if forall|i: int|
        0 <= i < records.len() ==> count_or_zero(#[trigger] records[i].fields.total_tracks) == n {
        assert(totals[0] == count_or_zero(records[0].fields.total_tracks));
        assert forall|i: int| 0 <= i < totals.len() implies #[trigger] totals[i] == totals[0] by {
            assert(totals[i] == count_or_zero(records[i].fields.total_tracks));
        }
    }
}

/// Two records that do not show the same year, or not the same track count,
/// reconcile to zero in that field.
pub proof fn lemma_numbers_disagree(records: Seq<RecordModel>, i: int, j: int)
    requires
        0 <= i < records.len(),
        0 <= j < records.len(),
    ensures
        year_or_zero(records[i].fields.year) != year_or_zero(records[j].fields.year)
            ==> group_year(records) == 0,
        count_or_zero(records[i].fields.total_tracks) != count_or_zero(
            records[j].fields.total_tracks,
        ) ==> group_total(records) == 0,
{
    let years = shown_years(records);
    let totals = shown_totals(records);
    assert(years[i] == year_or_zero(records[i].fields.year));
    assert(years[j] == year_or_zero(records[j].fields.year));
    assert(totals[i] == count_or_zero(records[i].fields.total_tracks));
    assert(totals[j] == count_or_zero(records[j].fields.total_tracks));
}

} // verus!
