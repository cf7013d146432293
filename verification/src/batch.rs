//! The session that edits a whole working set: shared fields that reach every
//! record, the save pass over all files, and the way into single records.

use crate::decimal::{
    i32_text_value, integer_text, parse_i32, parse_u16, parse_usize, u16_text_value,
    usize_text_value,
};
use crate::fields::{FieldsModel, TextField};
use crate::input::{
    batch_choice, is_no, is_yes, read_batch_choice, says_no, says_yes, single_choice, BatchChoice,
    SingleChoice,
};
use crate::reconcile::{
    group_of, group_text, group_total, group_year, reconcile, shown_texts, shown_totals,
    shown_years, GroupModel, GroupView, SharedText,
};
use crate::record::{records_model, MusicFileRecord, RecordModel};
use crate::single::{
    after_line, prefill, prefill_text, record_write, start_state, submit_line, SinglePhase,
    SingleState,
};
use crate::status::Status;
use vstd::prelude::*;

verus! {

/// What a session on a working set waits for.
#[derive(Clone, Copy, Debug, PartialEq, Eq, Structural)]
pub enum BatchPhase {
    /// A selection at the menu, which shows the group view and the status.
    Menu,
    /// The new text of a shared field.
    Text(SharedText),
    /// The new shared year.
    Year,
    /// The new shared track count.
    TotalTracks,
    /// The answer to whether `count`, the number of records, is to become the
    /// track count.
    ConfirmTotal { count: u16 },
    /// The outcome of writing record `next`; `failed` tells whether a write of
    /// this pass has failed already.
    Saving { next: usize, failed: bool },
    /// The answer to whether unsaved changes may be lost.
    ConfirmExit,
    /// The number of the record to edit, counted from one; zero for none.
    Choosing,
    /// Whatever the session on record `index` waits for; `in_sequence` tells
    /// whether the records are being visited one after another.
    Record { index: usize, in_sequence: bool },
    /// The answer to whether the visit goes on after record `index`.
    Continue { index: usize },
    /// Nothing: the session has ended.
    Done,
}

/// The mathematical value of a [`BatchSession`].
pub struct BatchModel {
    /// The working set, in the order in which it was loaded.
    pub records: Seq<RecordModel>,
    /// The group view as the menu shows it: what reconciling gave when the
    /// session began, and for each shared field that was set since, the value
    /// it was set to. Edits to a single record leave it as it is.
    pub group: GroupModel,
    /// Whether a shared edit has been made that no save pass has saved.
    pub modified: bool,
    /// What the next showing of the menu reports.
    pub status: Status,
    /// What the session waits for.
    pub phase: BatchPhase,
    /// The state of the session on a single record, while there is one.
    pub sub: SingleState,
}

/// The records with the text field `f` of each replaced by `v`.
pub open spec fn all_with_text(records: Seq<RecordModel>, f: TextField, v: Seq<char>) -> Seq<
    RecordModel,
> {
    Seq::new(
        records.len(),
        |i: int|
            RecordModel { path: records[i].path, fields: records[i].fields.with_text(f, Some(v)) },
    )
}

/// The records with the year of each replaced by `year`.
pub open spec fn all_with_year(records: Seq<RecordModel>, year: i32) -> Seq<RecordModel> {
    Seq::new(
        records.len(),
        |i: int|
            RecordModel { path: records[i].path, fields: records[i].fields.with_year(Some(year)) },
    )
}

/// The records with the track count of each replaced by `total`.
pub open spec fn all_with_total(records: Seq<RecordModel>, total: u16) -> Seq<RecordModel> {
    Seq::new(
        records.len(),
        |i: int|
            RecordModel {
                path: records[i].path,
                fields: records[i].fields.with_total_tracks(Some(total)),
            },
    )
}

/// The records with the fields of record `index` replaced by `fields`.
pub open spec fn with_fields(records: Seq<RecordModel>, index: int, fields: FieldsModel) -> Seq<
    RecordModel,
> {
    records.update(index, RecordModel { path: records[index].path, fields })
}

impl BatchModel {
    /// What holds of every session: there is a record, a machine can count
    /// the records, and whatever record the phase names is one of the working
    /// set.
    pub open spec fn wf(self) -> bool {
        &&& 0 < self.records.len() <= usize::MAX
        &&& match self.phase {
            BatchPhase::ConfirmTotal { count } => count == self.records.len(),
            BatchPhase::Saving { next, failed } => next < self.records.len(),
            BatchPhase::Record { index, in_sequence } => index < self.records.len(),
            BatchPhase::Continue { index } => index < self.records.len(),
            _ => true,
        }
    }

    /// The session on `records` as it begins: the group view reconciled,
    /// nothing changed, the menu shown.
    pub open spec fn start(records: Seq<RecordModel>) -> BatchModel {
        BatchModel {
            records,
            group: group_of(records),
            modified: false,
            status: Status::Clear,
            phase: BatchPhase::Menu,
            sub: SingleState::start(),
        }
    }

    /// The group view shows what reconciling the records gives.
    pub open spec fn in_sync(self) -> bool {
        self.group == group_of(self.records)
    }

    /// This session back at the menu.
    pub open spec fn at_menu(self) -> BatchModel {
        BatchModel { phase: BatchPhase::Menu, ..self }
    }

    /// This session back at the menu with a failure to report.
    pub open spec fn rejected(self, status: Status) -> BatchModel {
        BatchModel { status, phase: BatchPhase::Menu, ..self }
    }

    /// This session at the menu of record `index`, with a fresh state for it.
    pub open spec fn entering(self, index: usize, in_sequence: bool) -> BatchModel {
        BatchModel {
            phase: BatchPhase::Record { index, in_sequence },
            sub: SingleState::start(),
            ..self
        }
    }

    /// The session after a selection at the menu. The status has been shown
    /// and is cleared. Leaving is immediate only where nothing is unsaved; the
    /// number of records is offered as track count only where a track count
    /// can hold it.
    pub open spec fn after_selection(self, line: Seq<char>) -> BatchModel {
        let shown = BatchModel { status: Status::Clear, ..self };
        match batch_choice(line) {
            BatchChoice::Text(f) => BatchModel { phase: BatchPhase::Text(f), ..shown },
            BatchChoice::Year => BatchModel { phase: BatchPhase::Year, ..shown },
            BatchChoice::TotalTracks => BatchModel { phase: BatchPhase::TotalTracks, ..shown },
            BatchChoice::Save => BatchModel {
                phase: BatchPhase::Saving { next: 0, failed: false },
                ..shown
            },
            BatchChoice::Exit => if self.modified {
                BatchModel { phase: BatchPhase::ConfirmExit, ..shown }
            } else {
                BatchModel { phase: BatchPhase::Done, ..shown }
            },
            BatchChoice::CalculateTotal => if self.records.len() > u16::MAX {
                BatchModel { status: Status::TooManyFiles, ..shown }
            } else {
                BatchModel {
                    phase: BatchPhase::ConfirmTotal { count: self.records.len() as u16 },
                    ..shown
                }
            },
            BatchChoice::EditAll => shown.entering(0, true),
            BatchChoice::ViewFiles => BatchModel { phase: BatchPhase::Choosing, ..shown },
            BatchChoice::Invalid => BatchModel { status: Status::InvalidOption, ..shown },
        }
    }

    /// The session after the text `v` was given to the shared field `f`:
    /// every record holds it and the group view shows it.
    pub open spec fn with_shared_text(self, f: SharedText, v: Seq<char>) -> BatchModel {
        BatchModel {
            records: all_with_text(self.records, f.field(), v),
            group: self.group.with_text(f, v),
            modified: true,
            phase: BatchPhase::Menu,
            ..self
        }
    }

    /// The session after the year `year` was given to every record.
    pub open spec fn with_shared_year(self, year: i32) -> BatchModel {
        BatchModel {
            records: all_with_year(self.records, year),
            group: self.group.with_year(year),
            modified: true,
            phase: BatchPhase::Menu,
            ..self
        }
    }

    /// The session after the track count `total` was given to every record.
    pub open spec fn with_shared_total(self, total: u16) -> BatchModel {
        BatchModel {
            records: all_with_total(self.records, total),
            group: self.group.with_total_tracks(total),
            modified: true,
            phase: BatchPhase::Menu,
            ..self
        }
    }

    /// The session after the line `line` was entered.
    ///
    /// At the menu the line is a selection. At the prompt of a shared field it
    /// is the new value: one equal to what the group view shows changes
    /// nothing, one that is no number of the field is reported and changes
    /// nothing, any other reaches every record and the group view. While a
    /// single record is being edited the line goes to the session on that
    /// record. While the session waits for a write, or has ended, a line
    /// changes nothing.
    pub open spec fn after_line(self, line: Seq<char>) -> BatchModel {
        match self.phase {
            BatchPhase::Menu => self.after_selection(line),
            BatchPhase::Text(f) => if line == self.group.text(f) {
                self.at_menu()
            } else {
                self.with_shared_text(f, line)
            },
            BatchPhase::Year => match i32_text_value(line) {
                None => self.rejected(Status::NotANumber),
                Some(year) => if year == self.group.year {
                    self.at_menu()
                } else {
                    self.with_shared_year(year)
                },
            },
            BatchPhase::TotalTracks => match u16_text_value(line) {
                None => self.rejected(Status::NotANumber),
                Some(total) => if total == self.group.total_tracks {
                    self.at_menu()
                } else {
                    self.with_shared_total(total)
                },
            },
            BatchPhase::ConfirmTotal { count } => if says_yes(line) {
                self.with_shared_total(count)
            } else {
                self.at_menu()
            },
            BatchPhase::Saving { next, failed } => self,
            BatchPhase::ConfirmExit => if says_yes(line) {
                BatchModel { phase: BatchPhase::Done, ..self }
            } else {
                self.at_menu()
            },
            BatchPhase::Choosing => match usize_text_value(line) {
                None => self.rejected(Status::InvalidSelection),
                Some(number) => if number == 0 {
                    self.at_menu()
                } else if number <= self.records.len() {
                    self.entering((number - 1) as usize, false)
                } else {
                    self.rejected(Status::InvalidSelection)
                },
            },
            BatchPhase::Record { index, in_sequence } => {
                let (fields, sub) = after_line(self.records[index as int].fields, self.sub, line);
                let edited = BatchModel {
                    records: with_fields(self.records, index as int, fields),
                    sub,
                    ..self
                };
                if !sub.is_done() {
                    edited
                } else if in_sequence {
                    BatchModel { phase: BatchPhase::Continue { index }, ..edited }
                } else {
                    edited.at_menu()
                }
            },
            BatchPhase::Continue { index } => if says_no(line) || index + 1 >= self.records.len() {
                self.at_menu()
            } else {
                self.entering((index + 1) as usize, true)
            },
            BatchPhase::Done => self,
        }
    }

    /// The session after the outcome of a write.
    ///
    /// In a save pass the next record is written, whatever the outcome was;
    /// after the last one the unsaved mark is cleared if no write of the pass
    /// failed, and is left as it was if one did. While a single record is
    /// being edited the outcome goes to the session on that record. In any
    /// other phase nothing changes.
    pub open spec fn after_write(self, ok: bool) -> BatchModel {
        match self.phase {
            BatchPhase::Saving { next, failed } => {
                let failed = failed || !ok;
                if next + 1 < self.records.len() {
                    BatchModel {
                        phase: BatchPhase::Saving { next: (next + 1) as usize, failed },
                        ..self
                    }
                } else if failed {
                    self.rejected(Status::BatchWriteFailed)
                } else {
                    BatchModel {
                        modified: false,
                        status: Status::SaveSuccessful,
                        phase: BatchPhase::Menu,
                        ..self
                    }
                }
            },
            BatchPhase::Record { index, in_sequence } => BatchModel {
                sub: self.sub.after_write(ok),
                ..self
            },
            _ => self,
        }
    }

    /// The record that the session waits to have written, if it waits for a
    /// write at all.
    pub open spec fn pending_write(self) -> Option<usize> {
        match self.phase {
            BatchPhase::Saving { next, failed } => Some(next),
            BatchPhase::Record { index, in_sequence } => if self.sub.phase == SinglePhase::Saving {
                Some(index)
            } else {
                None
            },
            _ => None,
        }
    }

    /// What the prompt of the current phase is filled with. The prompts of
    /// the shared fields are empty; those of a single record are filled as in
    /// a session on that record alone.
    pub open spec fn prefill(self) -> Seq<char> {
        match self.phase {
            BatchPhase::Record { index, in_sequence } => prefill_text(
                self.records[index as int].fields,
                self.sub.phase,
            ),
            _ => Seq::empty(),
        }
    }
}

/// Gives the text `v` to the field `f` of every record.
pub fn set_all_text(records: &mut Vec<MusicFileRecord>, f: TextField, v: &String)
    ensures
        records_model(final(records)@) == all_with_text(records_model(old(records)@), f, v@),
{
    let ghost before = records_model(records@);
    let mut i: usize = 0;
    while i < records.len()
        invariant
            i <= records.len(),
            records.len() == before.len(),
            forall|j: int| 0 <= j < i ==> #[trigger] records[j]@ == all_with_text(before, f, v@)[j],
            forall|j: int| i <= j < records.len() ==> #[trigger] records[j]@ == before[j],
        decreases records.len() - i,
    {
        let ghost prev = records@;
        assert(prev[i as int]@ == before[i as int]);
        records[i].fields.set_text(f, v.clone());
        assert(forall|j: int| 0 <= j < prev.len() && j != i ==> records[j]@ == prev[j]@);
        i = i + 1;
    }
    assert(records_model(records@) =~= all_with_text(before, f, v@));
}

/// Gives the year `year` to every record.
pub fn set_all_year(records: &mut Vec<MusicFileRecord>, year: i32)
    ensures
        records_model(final(records)@) == all_with_year(records_model(old(records)@), year),
{
    let ghost before = records_model(records@);
    let mut i: usize = 0;
    while i < records.len()
        invariant
            i <= records.len(),
            records.len() == before.len(),
            forall|j: int| 0 <= j < i ==> #[trigger] records[j]@ == all_with_year(before, year)[j],
            forall|j: int| i <= j < records.len() ==> #[trigger] records[j]@ == before[j],
        decreases records.len() - i,
    {
        let ghost prev = records@;
        assert(prev[i as int]@ == before[i as int]);
        records[i].fields.set_year(year);
        assert(forall|j: int| 0 <= j < prev.len() && j != i ==> records[j]@ == prev[j]@);
        i = i + 1;
    }
    assert(records_model(records@) =~= all_with_year(before, year));
}

/// Gives the track count `total` to every record.
pub fn set_all_total_tracks(records: &mut Vec<MusicFileRecord>, total: u16)
    ensures
        records_model(final(records)@) == all_with_total(records_model(old(records)@), total),
{
    let ghost before = records_model(records@);
    let mut i: usize = 0;
    while i < records.len()
        invariant
            i <= records.len(),
            records.len() == before.len(),
            forall|j: int| 0 <= j < i ==> #[trigger] records[j]@ == all_with_total(before, total)[j],
            forall|j: int| i <= j < records.len() ==> #[trigger] records[j]@ == before[j],
        decreases records.len() - i,
    {
        let ghost prev = records@;
        assert(prev[i as int]@ == before[i as int]);
        records[i].fields.set_total_tracks(total);
        assert(forall|j: int| 0 <= j < prev.len() && j != i ==> records[j]@ == prev[j]@);
        i = i + 1;
    }
    assert(records_model(records@) =~= all_with_total(before, total));
}

/// A batch needs at least one record.
#[derive(Clone, Copy, Debug, PartialEq, Eq, Structural)]
pub struct NoRecords;

/// An editing session on a working set. The program that drives it looks at
/// [`BatchSession::phase`], asks the user or writes a file accordingly, and
/// hands the answer to [`BatchSession::submit`] or the outcome to
/// [`BatchSession::written`], each of which gives the session that follows,
/// until the phase is [`BatchPhase::Done`].
///
/// A session always holds at least one record, and whatever record its phase
/// names is one of them.
#[derive(Debug)]
pub struct BatchSession {
    records: Vec<MusicFileRecord>,
    group: GroupView,
    modified: bool,
    status: Status,
    phase: BatchPhase,
    sub: SingleState,
}

impl View for BatchSession {
    type V = BatchModel;

    closed spec fn view(&self) -> BatchModel {
        BatchModel {
            records: records_model(self.records@),
            group: self.group@,
            modified: self.modified,
            status: self.status,
            phase: self.phase,
            sub: self.sub,
        }
    }
}

impl BatchSession {
    /// Holds of every session that exists: see [`BatchModel::wf`].
    #[verifier::type_invariant]
    spec fn well_formed(self) -> bool {
        self@.wf()
    }

    /// Begins a session on `records`: the group view reconciled, nothing
    /// changed, the menu shown. Fails exactly where there is no record.
    pub fn new(records: Vec<MusicFileRecord>) -> (r: Result<BatchSession, NoRecords>)
        ensures
            match r {
                Ok(session) => records.len() > 0 && session@.wf() && session@ == BatchModel::start(
                    records_model(records@),
                ),
                Err(_) => records.len() == 0,
            },
    {
        if records.len() == 0 {
            return Err(NoRecords);
        }
        let group = reconcile(&records);
        Ok(
            BatchSession {
                records,
                group,
                modified: false,
                status: Status::Clear,
                phase: BatchPhase::Menu,
                sub: start_state(),
            },
        )
    }

    /// What the session waits for.
    pub fn phase(&self) -> (r: BatchPhase)
        ensures
            r == self@.phase,
            self@.wf(),
    {
        proof {
            use_type_invariant(self);
        }
        self.phase
    }

    /// What the next showing of the menu reports.
    pub fn status(&self) -> (r: Status)
        ensures
            r == self@.status,
    {
        self.status
    }

    /// Whether a shared edit has been made that no save pass has saved.
    pub fn is_modified(&self) -> (r: bool)
        ensures
            r == self@.modified,
    {
        self.modified
    }

    /// Whether the session has ended.
    pub fn is_done(&self) -> (r: bool)
        ensures
            r == (self@.phase == BatchPhase::Done),
    {
        self.phase == BatchPhase::Done
    }

    /// The group view as the menu shows it.
    pub fn group(&self) -> (r: &GroupView)
        ensures
            r@ == self@.group,
    {
        &self.group
    }

    /// The working set as it stands.
    pub fn records(&self) -> (r: &Vec<MusicFileRecord>)
        ensures
            records_model(r@) == self@.records,
            r.len() > 0,
    {
        proof {
            use_type_invariant(self);
        }
        &self.records
    }

    /// The state of the session on a single record, while there is one.
    pub fn record_state(&self) -> (r: SingleState)
        ensures
            r == self@.sub,
    {
        self.sub
    }

    /// The record that the session waits to have written, if it waits for a
    /// write at all.
    pub fn pending_write(&self) -> (r: Option<usize>)
        ensures
            r == self@.pending_write(),
            r matches Some(index) ==> index < self@.records.len(),
    {
        proof {
            use_type_invariant(self);
        }
        match self.phase {
            BatchPhase::Saving { next, .. } => Some(next),
            BatchPhase::Record { index, .. } => if self.sub.phase == SinglePhase::Saving {
                Some(index)
            } else {
                None
            },
            _ => None,
        }
    }

    /// The text that the prompt of the current phase is to be filled with.
    pub fn prefill(&self) -> (r: String)
        ensures
            r@ == self@.prefill(),
    {
        proof {
            use_type_invariant(self);
        }
        match self.phase {
            BatchPhase::Record { index, .. } => prefill(&self.records[index].fields, self.sub.phase),
            _ => String::new(),
        }
    }

    /// Takes the line entered in answer to what the session waits for and
    /// gives the session that follows.
    pub fn submit(self, line: String) -> (next: BatchSession)
        ensures
            next@ == self@.after_line(line@),
            next@.wf(),
    {
        proof {
            use_type_invariant(&self);
        }
        let BatchSession { mut records, mut group, mut modified, mut status, mut phase, mut sub } =
            self;
        match phase {
            BatchPhase::Menu => {
                status = Status::Clear;
                match read_batch_choice(line.as_str()) {
                    BatchChoice::Text(f) => {
                        phase = BatchPhase::Text(f);
                    },
                    BatchChoice::Year => {
                        phase = BatchPhase::Year;
                    },
                    BatchChoice::TotalTracks => {
                        phase = BatchPhase::TotalTracks;
                    },
                    BatchChoice::Save => {
                        phase = BatchPhase::Saving { next: 0, failed: false };
                    },
                    BatchChoice::Exit => {
                        phase = if modified {
                            BatchPhase::ConfirmExit
                        } else {
                            BatchPhase::Done
                        };
                    },
                    BatchChoice::CalculateTotal => {
                        let count: usize = records.len();
                        if count > u16::MAX as usize {
                            status = Status::TooManyFiles;
                        } else {
                            phase = BatchPhase::ConfirmTotal { count: count as u16 };
                        }
                    },
                    BatchChoice::EditAll => {
                        sub = start_state();
                        phase = BatchPhase::Record { index: 0, in_sequence: true };
                    },
                    BatchChoice::ViewFiles => {
                        phase = BatchPhase::Choosing;
                    },
                    BatchChoice::Invalid => {
                        status = Status::InvalidOption;
                    },
                }
            },
            BatchPhase::Text(f) => {
                phase = BatchPhase::Menu;
                if !(line == *group.text(f)) {
                    set_all_text(&mut records, f.text_field(), &line);
                    group.set_text(f, line);
                    modified = true;
                }
            },
            BatchPhase::Year => {
                phase = BatchPhase::Menu;
                match parse_i32(line.as_str()) {
                    None => {
                        status = Status::NotANumber;
                    },
                    Some(year) => {
                        if year != group.year {
                            set_all_year(&mut records, year);
                            group.year = year;
                            modified = true;
                        }
                    },
                }
            },
            BatchPhase::TotalTracks => {
                phase = BatchPhase::Menu;
                match parse_u16(line.as_str()) {
                    None => {
                        status = Status::NotANumber;
                    },
                    Some(total) => {
                        if total != group.total_tracks {
                            set_all_total_tracks(&mut records, total);
                            group.total_tracks = total;
                            modified = true;
                        }
                    },
                }
            },
            BatchPhase::ConfirmTotal { count } => {
                phase = BatchPhase::Menu;
                if is_yes(line.as_str()) {
                    set_all_total_tracks(&mut records, count);
                    group.total_tracks = count;
                    modified = true;
                }
            },
            BatchPhase::Saving { .. } => {},
            BatchPhase::ConfirmExit => {
                phase = if is_yes(line.as_str()) {
                    BatchPhase::Done
                } else {
                    BatchPhase::Menu
                };
            },
            BatchPhase::Choosing => {
                phase = BatchPhase::Menu;
                match parse_usize(line.as_str()) {
                    None => {
                        status = Status::InvalidSelection;
                    },
                    Some(number) => {
                        if number > records.len() {
                            status = Status::InvalidSelection;
                        } else if number > 0 {
                            sub = start_state();
                            phase = BatchPhase::Record { index: number - 1, in_sequence: false };
                        }
                    },
                }
            },
            BatchPhase::Record { index, in_sequence } => {
                let ghost before = records@;
                sub = submit_line(&mut records[index].fields, sub, line);
                assert(records_model(records@) =~= with_fields(
                    records_model(before),
                    index as int,
                    records[index as int].fields@,
                ));
                if sub.phase == SinglePhase::Done {
                    phase = if in_sequence {
                        BatchPhase::Continue { index }
                    } else {
                        BatchPhase::Menu
                    };
                }
            },
            BatchPhase::Continue { index } => {
                if is_no(line.as_str()) || index + 1 >= records.len() {
                    phase = BatchPhase::Menu;
                } else {
                    sub = start_state();
                    phase = BatchPhase::Record { index: index + 1, in_sequence: true };
                }
            },
            BatchPhase::Done => {},
        }
        BatchSession { records, group, modified, status, phase, sub }
    }

    /// Takes the outcome of the write that the session waits for and gives
    /// the session that follows.
    pub fn written(self, ok: bool) -> (next: BatchSession)
        ensures
            next@ == self@.after_write(ok),
            next@.wf(),
    {
        proof {
            use_type_invariant(&self);
        }
        let BatchSession { records, group, mut modified, mut status, mut phase, mut sub } = self;
        match phase {
            BatchPhase::Saving { next, failed } => {
                let failed: bool = failed || !ok;
                if next + 1 < records.len() {
                    phase = BatchPhase::Saving { next: next + 1, failed };
                } else if failed {
                    phase = BatchPhase::Menu;
                    status = Status::BatchWriteFailed;
                } else {
                    phase = BatchPhase::Menu;
                    status = Status::SaveSuccessful;
                    modified = false;
                }
            },
            BatchPhase::Record { .. } => {
                sub = record_write(sub, ok);
            },
            _ => {},
        }
        BatchSession { records, group, modified, status, phase, sub }
    }

    /// Ends the session and gives the working set back.
    pub fn into_records(self) -> (r: Vec<MusicFileRecord>)
        ensures
            records_model(r@) == self@.records,
    {
        self.records
    }
}

impl BatchModel {
    /// The session after the outcomes of several writes, one after another.
    pub open spec fn after_writes(self, outcomes: Seq<bool>) -> BatchModel
        decreases outcomes.len(),
    {
        if outcomes.len() == 0 {
            self
        } else {
            self.after_writes(outcomes.drop_last()).after_write(outcomes.last())
        }
    }
}

/// Every write in `outcomes` succeeded.
pub open spec fn all_succeeded(outcomes: Seq<bool>) -> bool {
    forall|i: int| 0 <= i < outcomes.len() ==> outcomes[i]
}

/// Whatever is entered or reported, a session stays well formed, keeps the
/// number and the order of its records, and never changes a path.
pub proof fn lemma_session_keeps_shape(m: BatchModel, line: Seq<char>, ok: bool)
    requires
        m.wf(),
    ensures
        m.after_line(line).wf(),
        m.after_write(ok).wf(),
        m.after_write(ok).records == m.records,
        m.after_line(line).records.len() == m.records.len(),
        forall|i: int|
            0 <= i < m.records.len() ==> (#[trigger] m.after_line(line).records[i]).path
                == m.records[i].path,
{
}

/// Entering again what the group view shows for a shared field leaves every
/// record, the group view, the unsaved mark and the status as they are, and
/// leads back to the menu: no write is asked for.
pub proof fn lemma_same_shared_value_changes_nothing(m: BatchModel)
    ensures
        m.phase matches BatchPhase::Text(f) ==> m.after_line(m.group.text(f)) == m.at_menu(),
        m.phase == BatchPhase::Year ==> m.after_line(integer_text(m.group.year as int))
            == m.at_menu(),
        m.phase == BatchPhase::TotalTracks ==> m.after_line(
            integer_text(m.group.total_tracks as int),
        ) == m.at_menu(),
        m.at_menu().pending_write() is None,
{
    crate::decimal::lemma_field_text_round_trip(m.group.year, m.group.total_tracks);
}

/// A new text for a shared field reaches every record and the group view: all
/// records hold it, the group view shows it, and reconciling the records anew
/// gives it too. Nothing else in any record changes, and the unsaved mark is
/// set.
pub proof fn lemma_shared_text_reaches_all(m: BatchModel, f: SharedText, v: Seq<char>)
    requires
        m.wf(),
        m.phase == BatchPhase::Text(f),
        v != m.group.text(f),
    ensures
        ({
            let n = m.after_line(v);
            &&& n.records.len() == m.records.len()
            &&& forall|i: int|
                0 <= i < n.records.len() ==> (#[trigger] n.records[i]).fields
                    == m.records[i].fields.with_text(f.field(), Some(v))
            &&& forall|i: int|
                0 <= i < n.records.len() ==> (#[trigger] n.records[i]).fields.text(f.field())
                    == Some(v)
            &&& n.group == m.group.with_text(f, v)
            &&& n.group.text(f) == v
            &&& group_text(n.records, f.field()) == v
            &&& n.modified
            &&& n.phase == BatchPhase::Menu
        }),
{
    let n = m.after_line(v);
    crate::reconcile::lemma_all_share(n.records, f.field(), v);
}

/// A new year, or a new track count, for all records reaches every record and
/// the group view, and reconciling the records anew gives it too.
pub proof fn lemma_shared_number_reaches_all(m: BatchModel, line: Seq<char>)
    requires
        m.wf(),
    ensures
        m.phase == BatchPhase::Year ==> (i32_text_value(line) matches Some(year) ==> year
            != m.group.year ==> {
            let n = m.after_line(line);
            &&& n.records.len() == m.records.len()
            &&& forall|i: int|
                0 <= i < n.records.len() ==> (#[trigger] n.records[i]).fields
                    == m.records[i].fields.with_year(Some(year))
            &&& n.group == m.group.with_year(year)
            &&& group_year(n.records) == year
            &&& n.modified
        }),
        m.phase == BatchPhase::TotalTracks ==> (u16_text_value(line) matches Some(total) ==> total
            != m.group.total_tracks ==> {
            let n = m.after_line(line);
            &&& n.records.len() == m.records.len()
            &&& forall|i: int|
                0 <= i < n.records.len() ==> (#[trigger] n.records[i]).fields
                    == m.records[i].fields.with_total_tracks(Some(total))
            &&& n.group == m.group.with_total_tracks(total)
            &&& group_total(n.records) == total
            &&& n.modified
        }),
{
    let n = m.after_line(line);
    if m.phase == BatchPhase::Year {
        if let Some(year) = i32_text_value(line) {
            if year != m.group.year {
                crate::reconcile::lemma_numbers_shared(n.records, year, 0);
            }
        }
    }
    if m.phase == BatchPhase::TotalTracks {
        if let Some(total) = u16_text_value(line) {
            if total != m.group.total_tracks {
                crate::reconcile::lemma_numbers_shared(n.records, 0, total);
            }
        }
    }
}

/// A line that is no number of the shared field asked for is reported and
/// changes neither a record, nor the group view, nor the unsaved mark.
pub proof fn lemma_shared_not_a_number(m: BatchModel, line: Seq<char>)
    requires
        m.phase == BatchPhase::Year && i32_text_value(line) is None || m.phase
            == BatchPhase::TotalTracks && u16_text_value(line) is None,
    ensures
        m.after_line(line) == m.rejected(Status::NotANumber),
        m.rejected(Status::NotANumber).records == m.records,
        m.rejected(Status::NotANumber).modified == m.modified,
{
}

/// While a save pass has written `k` of the records, it waits for the write
/// of record `k` and remembers whether one of the writes so far has failed;
/// nothing else has changed.
proof fn lemma_save_pass_progress(m: BatchModel, outcomes: Seq<bool>, k: int)
    requires
        m.wf(),
        m.phase == (BatchPhase::Saving { next: 0, failed: false }),
        0 <= k < m.records.len(),
        k <= outcomes.len(),
    ensures
        m.after_writes(outcomes.take(k)) == (BatchModel {
            phase: BatchPhase::Saving { next: k as usize, failed: !all_succeeded(outcomes.take(k)) },
            ..m
        }),
    decreases k,
{
    if k > 0 {
        lemma_save_pass_progress(m, outcomes, k - 1);
        lemma_all_succeeded_step(outcomes.take(k));
        assert(outcomes.take(k).drop_last() =~= outcomes.take(k - 1));
    } else {
        assert(outcomes.take(0) =~= Seq::<bool>::empty());
    }
}

/// All of a sequence of writes succeeded exactly if the last one did and all
/// before it.
proof fn lemma_all_succeeded_step(outcomes: Seq<bool>)
    requires
        outcomes.len() > 0,
    ensures
        all_succeeded(outcomes) <==> all_succeeded(outcomes.drop_last()) && outcomes.last(),
{
    let before = outcomes.drop_last();
    if all_succeeded(outcomes) {
        assert forall|i: int| 0 <= i < before.len() implies before[i] by {
            assert(outcomes[i]);
        }
        assert(outcomes[outcomes.len() - 1]);
    }
    if all_succeeded(before) && outcomes.last() {
        assert forall|i: int| 0 <= i < outcomes.len() implies outcomes[i] by {
            if i < before.len() {
                assert(before[i]);
            }
        }
    }
}

/// A save pass attempts the write of every record, in order, whatever the
/// outcomes are. When the last outcome is in, the session is back at the menu
/// with its records and its group view untouched; the unsaved mark is cleared
/// if and only if every write succeeded, and is left as it was otherwise; the
/// status reports success in the first case and the failure in the second.
pub proof fn lemma_save_pass(m: BatchModel, selection: Seq<char>, outcomes: Seq<bool>)
    requires
        m.wf(),
        m.phase == BatchPhase::Menu,
        batch_choice(selection) == BatchChoice::Save,
        outcomes.len() == m.records.len(),
    ensures
        forall|k: int|
            0 <= k < outcomes.len() ==> (#[trigger] m.after_line(selection).after_writes(
                outcomes.take(k),
            )).pending_write() == Some(k as usize),
        ({
            let n = m.after_line(selection).after_writes(outcomes);
            &&& n.phase == BatchPhase::Menu
            &&& n.records == m.records
            &&& n.group == m.group
            &&& n.modified == (m.modified && !all_succeeded(outcomes))
            &&& n.status == if all_succeeded(outcomes) {
                Status::SaveSuccessful
            } else {
                Status::BatchWriteFailed
            }
        }),
{
    let saving = m.after_line(selection);
    let len = outcomes.len() as int;
    assert forall|k: int| 0 <= k < outcomes.len() implies (#[trigger] saving.after_writes(
        outcomes.take(k),
    )).pending_write() == Some(k as usize) by {
        lemma_save_pass_progress(saving, outcomes, k);
    }
    lemma_save_pass_progress(saving, outcomes, len - 1);
    lemma_all_succeeded_step(outcomes);
    assert(outcomes.drop_last() =~= outcomes.take(len - 1));
}

/// Taking the number of records as track count, once confirmed, gives that
/// number to every record and to the group view, and sets the unsaved mark.
/// Any other answer changes nothing. Where a track count cannot hold the
/// number, this is reported at once and nothing is asked or changed.
pub proof fn lemma_calculated_total(m: BatchModel, selection: Seq<char>, answer: Seq<char>)
    requires
        m.wf(),
        m.phase == BatchPhase::Menu,
        batch_choice(selection) == BatchChoice::CalculateTotal,
    ensures
        m.records.len() > u16::MAX ==> m.after_line(selection) == (BatchModel {
            status: Status::TooManyFiles,
            ..m
        }),
        m.records.len() <= u16::MAX && says_yes(answer) ==> {
            let n = m.after_line(selection).after_line(answer);
            &&& n.records.len() == m.records.len()
            &&& forall|i: int|
                0 <= i < n.records.len() ==> (#[trigger] n.records[i]).fields
                    == m.records[i].fields.with_total_tracks(Some(m.records.len() as u16))
            &&& n.group.total_tracks == m.records.len()
            &&& group_total(n.records) == m.records.len()
            &&& n.modified
            &&& n.phase == BatchPhase::Menu
        },
        m.records.len() <= u16::MAX && !says_yes(answer) ==> m.after_line(selection).after_line(
            answer,
        ) == (BatchModel { status: Status::Clear, ..m }),
{
    if m.records.len() <= u16::MAX && says_yes(answer) {
        let n = m.after_line(selection).after_line(answer);
        crate::reconcile::lemma_numbers_shared(n.records, 0, m.records.len() as u16);
    }
}

/// What is entered while a single record is being edited changes that record
/// alone, and neither the group view nor the unsaved mark of the batch.
pub proof fn lemma_record_edit_is_local(m: BatchModel, line: Seq<char>)
    requires
        m.wf(),
        m.phase is Record,
    ensures
        ({
            let n = m.after_line(line);
            let index = m.phase->Record_index as int;
            &&& n.records[index].fields == after_line(m.records[index].fields, m.sub, line).0
            &&& forall|j: int|
                0 <= j < m.records.len() && j != index ==> #[trigger] n.records[j] == m.records[j]
            &&& n.group == m.group
            &&& n.modified == m.modified
            &&& n.status == m.status
        }),
{
}

/// Visiting the records one after another starts at the first record and
/// goes on in order. After each record the user is asked; the answer no, or
/// the end of the working set, leads back to the menu, and what was edited
/// before stays.
pub proof fn lemma_visit_in_order(m: BatchModel, line: Seq<char>)
    requires
        m.wf(),
    ensures
        m.phase == BatchPhase::Menu && batch_choice(line) == BatchChoice::EditAll ==> m.after_line(
            line,
        ).phase == (BatchPhase::Record { index: 0, in_sequence: true }),
        m.phase matches BatchPhase::Record { index, in_sequence } ==> {
            let n = m.after_line(line);
            if !n.sub.is_done() {
                n.phase == m.phase
            } else if in_sequence {
                n.phase == (BatchPhase::Continue { index })
            } else {
                n.phase == BatchPhase::Menu
            }
        },
        m.phase matches BatchPhase::Continue { index } ==> {
            let n = m.after_line(line);
            &&& n.records == m.records
            &&& n.phase == if says_no(line) || index + 1 == m.records.len() {
                BatchPhase::Menu
            } else {
                BatchPhase::Record { index: (index + 1) as usize, in_sequence: true }
            }
        },
{
}

/// Choosing a record by its number, counted from one, leads to that record.
/// Zero leads back to the menu; any other line is reported as invalid. None
/// of the three changes a record or the unsaved mark.
pub proof fn lemma_choice(m: BatchModel, line: Seq<char>)
    requires
        m.wf(),
        m.phase == BatchPhase::Choosing,
    ensures
        ({
            let n = m.after_line(line);
            &&& n.records == m.records
            &&& n.modified == m.modified
            &&& match usize_text_value(line) {
                Some(number) => if number == 0 {
                    n.phase == BatchPhase::Menu && n.status == m.status
                } else if number <= m.records.len() {
                    n.phase == (BatchPhase::Record {
                        index: (number - 1) as usize,
                        in_sequence: false,
                    })
                } else {
                    n.phase == BatchPhase::Menu && n.status == Status::InvalidSelection
                },
                None => n.phase == BatchPhase::Menu && n.status == Status::InvalidSelection,
            }
        }),
{
}

/// The session ends only from the menu with nothing unsaved, or on the answer
/// yes to the question whether unsaved changes may be lost; any other answer
/// leads back to the menu with every record as it was.
pub proof fn lemma_batch_exit(m: BatchModel, line: Seq<char>)
    requires
        m.wf(),
        m.phase != BatchPhase::Done,
    ensures
        ({
            let n = m.after_line(line);
            &&& n.phase == BatchPhase::Done <==> (m.phase == BatchPhase::Menu && batch_choice(line)
                == BatchChoice::Exit && !m.modified) || (m.phase == BatchPhase::ConfirmExit
                && says_yes(line))
            &&& m.phase == BatchPhase::ConfirmExit ==> n.records == m.records && n.modified
                == m.modified && (n.phase == BatchPhase::Done || n.phase == BatchPhase::Menu)
        }),
{
}

/// The unsaved mark of the batch is set by a shared edit and by nothing else,
/// and no line ever clears it. It is cleared only by the outcome of the last
/// write of a save pass in which no write failed.
pub proof fn lemma_batch_mark(m: BatchModel, line: Seq<char>, ok: bool)
    requires
        m.wf(),
    ensures
        m.modified ==> m.after_line(line).modified,
        !m.modified && m.after_line(line).modified ==> m.phase is Text || m.phase is Year
            || m.phase is TotalTracks || m.phase is ConfirmTotal,
        !m.after_write(ok).modified ==> !m.modified || (ok && m.phase == (BatchPhase::Saving {
            next: (m.records.len() - 1) as usize,
            failed: false,
        })),
        m.after_write(ok).modified ==> m.modified,
{
}

/// A write is asked for only by the save selection: at the menu of the batch
/// for every record in turn, at the menu of a single record for that record.
pub proof fn lemma_batch_write_only_on_save(m: BatchModel, line: Seq<char>)
    requires
        m.wf(),
        m.pending_write() is None,
    ensures
        m.after_line(line).pending_write() matches Some(index) ==> (m.phase == BatchPhase::Menu
            && batch_choice(line) == BatchChoice::Save && index == 0) || (m.phase is Record
            && m.phase->Record_index == index && m.sub.phase == SinglePhase::Menu && single_choice(
            line,
        ) == SingleChoice::Save),
{
}

/// Giving a text to one field of every record leaves what the records show
/// for the other fields, for the year and for the track count as it was.
proof fn lemma_text_leaves_others(records: Seq<RecordModel>, f: TextField, v: Seq<char>)
    ensures
        forall|g: TextField|
            g != f ==> #[trigger] shown_texts(all_with_text(records, f, v), g) == shown_texts(
                records,
                g,
            ),
        shown_years(all_with_text(records, f, v)) == shown_years(records),
        shown_totals(all_with_text(records, f, v)) == shown_totals(records),
{
    let after = all_with_text(records, f, v);
    assert forall|g: TextField| g != f implies #[trigger] shown_texts(after, g) == shown_texts(
        records,
        g,
    ) by {
        assert(shown_texts(after, g) =~= shown_texts(records, g));
    }
    assert(shown_years(after) =~= shown_years(records));
    assert(shown_totals(after) =~= shown_totals(records));
}

/// Giving a year or a track count to every record leaves what the records
/// show for every other field as it was.
proof fn lemma_number_leaves_others(records: Seq<RecordModel>, year: i32, total: u16)
    ensures
        forall|g: TextField| #[trigger]
            shown_texts(all_with_year(records, year), g) == shown_texts(records, g),
        forall|g: TextField| #[trigger]
            shown_texts(all_with_total(records, total), g) == shown_texts(records, g),
        shown_totals(all_with_year(records, year)) == shown_totals(records),
        shown_years(all_with_total(records, total)) == shown_years(records),
{
    assert forall|g: TextField| #[trigger]
        shown_texts(all_with_year(records, year), g) == shown_texts(records, g) by {
        assert(shown_texts(all_with_year(records, year), g) =~= shown_texts(records, g));
    }
    assert forall|g: TextField| #[trigger]
        shown_texts(all_with_total(records, total), g) == shown_texts(records, g) by {
        assert(shown_texts(all_with_total(records, total), g) =~= shown_texts(records, g));
    }
    assert(shown_totals(all_with_year(records, year)) =~= shown_totals(records));
    assert(shown_years(all_with_total(records, total)) =~= shown_years(records));
}

/// A session begins with its group view in step with its records, and every
/// shared edit, save pass and question keeps it so: as long as no single
/// record is edited, the group view shows what reconciling the records anew
/// would give.
pub proof fn lemma_group_view_in_sync(m: BatchModel, line: Seq<char>, ok: bool)
    requires
        m.wf(),
        m.in_sync(),
    ensures
        BatchModel::start(m.records).in_sync(),
        !(m.phase is Record) ==> m.after_line(line).in_sync(),
        m.after_write(ok).in_sync(),
{
    let n = m.after_line(line);
    match m.phase {
        BatchPhase::Text(f) => {
            if line != m.group.text(f) {
                lemma_text_leaves_others(m.records, f.field(), line);
                crate::reconcile::lemma_all_share(n.records, f.field(), line);
            }
        },
        BatchPhase::Year => {
            if let Some(year) = i32_text_value(line) {
                if year != m.group.year {
                    lemma_number_leaves_others(m.records, year, 0);
                    crate::reconcile::lemma_numbers_shared(n.records, year, 0);
                }
            }
        },
        BatchPhase::TotalTracks => {
            if let Some(total) = u16_text_value(line) {
                if total != m.group.total_tracks {
                    lemma_number_leaves_others(m.records, 0, total);
                    crate::reconcile::lemma_numbers_shared(n.records, 0, total);
                }
            }
        },
        BatchPhase::ConfirmTotal { count } => {
            if says_yes(line) {
                lemma_number_leaves_others(m.records, 0, count);
                crate::reconcile::lemma_numbers_shared(n.records, 0, count);
            }
        },
        _ => {},
    }
}

} // verus!
