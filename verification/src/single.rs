//! The session that edits one record: which question it waits for, what an
//! answer changes, and when it may end.

use crate::decimal::{
    format_i32, format_u16, i32_text_value, integer_text, parse_i32, parse_u16, u16_text_value,
};
use crate::fields::{count_or_zero, editable_text, year_or_zero, FieldsModel, TagFields, TextField};
use crate::input::{is_yes, read_single_choice, says_yes, single_choice, SingleChoice};
use crate::record::{MusicFileRecord, RecordModel};
use crate::status::Status;
use vstd::prelude::*;

verus! {

/// What a session on one record waits for.
#[derive(Clone, Copy, Debug, PartialEq, Eq, Structural)]
pub enum SinglePhase {
    /// A selection at the menu, which shows the fields and the status.
    Menu,
    /// The new text of a field.
    Text(TextField),
    /// The new year.
    Year,
    /// The new track number; the track count is asked next.
    TrackNumber,
    /// The new track count, with the track number that was entered before.
    TotalTracks { track_number: u16 },
    /// The outcome of writing the record to its file.
    Saving,
    /// The answer to whether unsaved changes may be lost.
    ConfirmExit,
    /// Nothing: the session has ended.
    Done,
}

/// The state of a session on one record, apart from the record itself.
#[derive(Clone, Copy, Debug, PartialEq, Eq, Structural)]
pub struct SingleState {
    /// Whether the record holds a change that no write has saved.
    pub modified: bool,
    /// What the next showing of the menu reports.
    pub status: Status,
    /// What the session waits for.
    pub phase: SinglePhase,
}

impl SingleState {
    /// The state in which a session begins: nothing changed, nothing to
    /// report, the menu shown.
    pub open spec fn start() -> SingleState {
        SingleState { modified: false, status: Status::Clear, phase: SinglePhase::Menu }
    }

    /// This state back at the menu.
    pub open spec fn at_menu(self) -> SingleState {
        SingleState { phase: SinglePhase::Menu, ..self }
    }

    /// This state back at the menu after a change to the record.
    pub open spec fn changed(self) -> SingleState {
        SingleState { modified: true, phase: SinglePhase::Menu, ..self }
    }

    /// This state back at the menu with a failure to report.
    pub open spec fn rejected(self, status: Status) -> SingleState {
        SingleState { status, phase: SinglePhase::Menu, ..self }
    }

    /// The state after a selection at the menu. The status has been shown and
    /// is cleared; leaving is immediate only where nothing is unsaved.
    pub open spec fn after_selection(self, line: Seq<char>) -> SingleState {
        let shown = SingleState { status: Status::Clear, ..self };
        match single_choice(line) {
            SingleChoice::Text(f) => SingleState { phase: SinglePhase::Text(f), ..shown },
            SingleChoice::Year => SingleState { phase: SinglePhase::Year, ..shown },
            SingleChoice::Track => SingleState { phase: SinglePhase::TrackNumber, ..shown },
            SingleChoice::Save => SingleState { phase: SinglePhase::Saving, ..shown },
            SingleChoice::Exit => if self.modified {
                SingleState { phase: SinglePhase::ConfirmExit, ..shown }
            } else {
                SingleState { phase: SinglePhase::Done, ..shown }
            },
            SingleChoice::Invalid => SingleState { status: Status::InvalidOption, ..shown },
        }
    }

    /// The state after the outcome of a write. Success clears the unsaved
    /// mark; failure leaves it as it is. Outside a save nothing changes.
    pub open spec fn after_write(self, ok: bool) -> SingleState {
        if self.phase != SinglePhase::Saving {
            self
        } else if ok {
            SingleState {
                modified: false,
                status: Status::SaveSuccessful,
                phase: SinglePhase::Menu,
            }
        } else {
            SingleState { status: Status::WriteFailed, phase: SinglePhase::Menu, ..self }
        }
    }

    /// The session has ended.
    pub open spec fn is_done(self) -> bool {
        self.phase == SinglePhase::Done
    }
}

/// What the prompt of a phase is filled with: the current value of the field
/// that the phase asks for, and nothing in the other phases.
pub open spec fn prefill_text(fields: FieldsModel, phase: SinglePhase) -> Seq<char> {
    match phase {
        SinglePhase::Text(f) => editable_text(fields.text(f)),
        SinglePhase::Year => integer_text(year_or_zero(fields.year) as int),
        SinglePhase::TrackNumber => integer_text(count_or_zero(fields.track_number) as int),
        SinglePhase::TotalTracks { .. } => integer_text(
            count_or_zero(fields.total_tracks) as int,
        ),
        _ => Seq::empty(),
    }
}

/// The fields after the track number `number` and the track count `total`
/// were entered: each is stored where it is not what the field shows.
pub open spec fn with_track(fields: FieldsModel, number: u16, total: u16) -> FieldsModel {
    let numbered = if number != count_or_zero(fields.track_number) {
        fields.with_track_number(Some(number))
    } else {
        fields
    };
    if total != count_or_zero(fields.total_tracks) {
        numbered.with_total_tracks(Some(total))
    } else {
        numbered
    }
}

/// The fields and the state after the line `line` was entered.
///
/// At the menu the line is a selection. At a field's prompt it is the new
/// value: one equal to what the prompt was filled with changes nothing, one
/// that is no number of the field is reported and changes nothing, any other
/// is stored and marks the record as changed. The track number is stored only
/// together with the track count. While the session waits for a write, or has
/// ended, a line changes nothing.
pub open spec fn after_line(fields: FieldsModel, state: SingleState, line: Seq<char>) -> (
    FieldsModel,
    SingleState,
) {
    match state.phase {
        SinglePhase::Menu => (fields, state.after_selection(line)),
        SinglePhase::Text(f) => if line == editable_text(fields.text(f)) {
            (fields, state.at_menu())
        } else {
            (fields.with_text(f, Some(line)), state.changed())
        },
        SinglePhase::Year => match i32_text_value(line) {
            None => (fields, state.rejected(Status::NotANumber)),
            Some(year) => if year == year_or_zero(fields.year) {
                (fields, state.at_menu())
            } else {
                (fields.with_year(Some(year)), state.changed())
            },
        },
        SinglePhase::TrackNumber => match u16_text_value(line) {
            None => (fields, state.rejected(Status::NotANumber)),
            Some(number) => (
                fields,
                SingleState { phase: SinglePhase::TotalTracks { track_number: number }, ..state },
            ),
        },
        SinglePhase::TotalTracks { track_number } => match u16_text_value(line) {
            None => (fields, state.rejected(Status::NotANumber)),
            Some(total) => if track_number == count_or_zero(fields.track_number) && total
                == count_or_zero(fields.total_tracks) {
                (fields, state.at_menu())
            } else {
                (with_track(fields, track_number, total), state.changed())
            },
        },
        SinglePhase::Saving => (fields, state),
        SinglePhase::ConfirmExit => if says_yes(line) {
            (fields, SingleState { phase: SinglePhase::Done, ..state })
        } else {
            (fields, state.at_menu())
        },
        SinglePhase::Done => (fields, state),
    }
}

/// The state in which a session begins.
pub fn start_state() -> (r: SingleState)
    ensures
        r == SingleState::start(),
{
    SingleState { modified: false, status: Status::Clear, phase: SinglePhase::Menu }
}

/// Takes the line entered in answer to what `state` waits for, applies it to
/// `fields` and gives the state that follows.
pub fn submit_line(fields: &mut TagFields, state: SingleState, line: String) -> (next: SingleState)
    ensures
        (final(fields)@, next) == after_line(old(fields)@, state, line@),
{
    let at_menu = SingleState { phase: SinglePhase::Menu, ..state };
    let changed = SingleState { modified: true, phase: SinglePhase::Menu, ..state };
    let not_a_number = SingleState {
        status: Status::NotANumber,
        phase: SinglePhase::Menu,
        ..state
    };
    match state.phase {
        SinglePhase::Menu => {
            let shown = SingleState { status: Status::Clear, ..state };
            match read_single_choice(line.as_str()) {
                SingleChoice::Text(f) => SingleState { phase: SinglePhase::Text(f), ..shown },
                SingleChoice::Year => SingleState { phase: SinglePhase::Year, ..shown },
                SingleChoice::Track => SingleState { phase: SinglePhase::TrackNumber, ..shown },
                SingleChoice::Save => SingleState { phase: SinglePhase::Saving, ..shown },
                SingleChoice::Exit => if state.modified {
                    SingleState { phase: SinglePhase::ConfirmExit, ..shown }
                } else {
                    SingleState { phase: SinglePhase::Done, ..shown }
                },
                SingleChoice::Invalid => SingleState { status: Status::InvalidOption, ..shown },
            }
        },
        SinglePhase::Text(f) => {
            let same: bool = match fields.text(f) {
                Some(t) => *t == line,
                None => line.as_str().is_empty(),
            };
            assert(same == (line@ =~= editable_text(fields@.text(f))));
            if same {
                at_menu
            } else {
                fields.set_text(f, line);
                changed
            }
        },
        SinglePhase::Year => match parse_i32(line.as_str()) {
            None => not_a_number,
            Some(year) => if year == fields.shown_year() {
                at_menu
            } else {
                fields.set_year(year);
                changed
            },
        },
        SinglePhase::TrackNumber => match parse_u16(line.as_str()) {
            None => not_a_number,
            Some(number) => SingleState {
                phase: SinglePhase::TotalTracks { track_number: number },
                ..state
            },
        },
        SinglePhase::TotalTracks { track_number } => match parse_u16(line.as_str()) {
            None => not_a_number,
            Some(total) => {
                let new_number: bool = track_number != fields.shown_track_number();
                let new_total: bool = total != fields.shown_total_tracks();
                if new_number {
                    fields.set_track_number(track_number);
                }
                if new_total {
                    fields.set_total_tracks(total);
                }
                if new_number || new_total {
                    changed
                } else {
                    at_menu
                }
            },
        },
        SinglePhase::Saving => state,
        SinglePhase::ConfirmExit => if is_yes(line.as_str()) {
            SingleState { phase: SinglePhase::Done, ..state }
        } else {
            at_menu
        },
        SinglePhase::Done => state,
    }
}

/// Takes the outcome of the write that `state` waits for and gives the state
/// that follows.
pub fn record_write(state: SingleState, ok: bool) -> (next: SingleState)
    ensures
        next == state.after_write(ok),
{
    match state.phase {
        SinglePhase::Saving => if ok {
            SingleState {
                modified: false,
                status: Status::SaveSuccessful,
                phase: SinglePhase::Menu,
            }
        } else {
            SingleState { status: Status::WriteFailed, phase: SinglePhase::Menu, ..state }
        },
        _ => state,
    }
}

/// The text that the prompt of `phase` is to be filled with.
pub fn prefill(fields: &TagFields, phase: SinglePhase) -> (r: String)
    ensures
        r@ == prefill_text(fields@, phase),
{
    match phase {
        SinglePhase::Text(f) => fields.editable(f),
        SinglePhase::Year => format_i32(fields.shown_year()),
        SinglePhase::TrackNumber => format_u16(fields.shown_track_number()),
        SinglePhase::TotalTracks { .. } => format_u16(fields.shown_total_tracks()),
        _ => String::new(),
    }
}

/// The mathematical value of a [`SingleSession`].
pub struct SessionModel {
    pub record: RecordModel,
    pub state: SingleState,
}

impl SessionModel {
    /// The session on `record` as it begins.
    pub open spec fn start(record: RecordModel) -> SessionModel {
        SessionModel { record, state: SingleState::start() }
    }

    /// The session after the line `line` was entered. The path of the record
    /// never changes.
    pub open spec fn after_line(self, line: Seq<char>) -> SessionModel {
        let (fields, state) = after_line(self.record.fields, self.state, line);
        SessionModel { record: RecordModel { path: self.record.path, fields }, state }
    }

    /// The session after the outcome of a write.
    pub open spec fn after_write(self, ok: bool) -> SessionModel {
        SessionModel { record: self.record, state: self.state.after_write(ok) }
    }
}

/// An editing session on one record. The program that drives it looks at
/// [`SingleSession::phase`], asks the user or writes the file accordingly, and
/// hands the answer to [`SingleSession::submit`] or the outcome to
/// [`SingleSession::written`], each of which gives the session that follows,
/// until the phase is [`SinglePhase::Done`].
#[derive(Debug)]
pub struct SingleSession {
    record: MusicFileRecord,
    state: SingleState,
}

impl View for SingleSession {
    type V = SessionModel;

    closed spec fn view(&self) -> SessionModel {
        SessionModel { record: self.record@, state: self.state }
    }
}

impl SingleSession {
    /// Begins a session on `record`: nothing changed, the menu shown.
    pub fn new(record: MusicFileRecord) -> (r: SingleSession)
        ensures
            r@ == SessionModel::start(record@),
    {
        SingleSession { record, state: start_state() }
    }

    /// What the session waits for.
    pub fn phase(&self) -> (r: SinglePhase)
        ensures
            r == self@.state.phase,
    {
        self.state.phase
    }

    /// What the next showing of the menu reports.
    pub fn status(&self) -> (r: Status)
        ensures
            r == self@.state.status,
    {
        self.state.status
    }

    /// Whether the record holds a change that no write has saved.
    pub fn is_modified(&self) -> (r: bool)
        ensures
            r == self@.state.modified,
    {
        self.state.modified
    }

    /// Whether the session has ended.
    pub fn is_done(&self) -> (r: bool)
        ensures
            r == self@.state.is_done(),
    {
        self.state.phase == SinglePhase::Done
    }

    /// The record as it stands.
    pub fn record(&self) -> (r: &MusicFileRecord)
        ensures
            r@ == self@.record,
    {
        &self.record
    }

    /// The text that the prompt of the current phase is to be filled with.
    pub fn prefill(&self) -> (r: String)
        ensures
            r@ == prefill_text(self@.record.fields, self@.state.phase),
    {
        prefill(&self.record.fields, self.state.phase)
    }

    /// Takes the line entered in answer to what the session waits for and
    /// gives the session that follows.
    pub fn submit(self, line: String) -> (next: SingleSession)
        ensures
            next@ == self@.after_line(line@),
    {
        let SingleSession { mut record, state } = self;
        let state = submit_line(&mut record.fields, state, line);
        SingleSession { record, state }
    }

    /// Takes the outcome of the write that the session waits for and gives
    /// the session that follows.
    pub fn written(self, ok: bool) -> (next: SingleSession)
        ensures
            next@ == self@.after_write(ok),
    {
        SingleSession { record: self.record, state: record_write(self.state, ok) }
    }

    /// Ends the session and gives the record back.
    pub fn into_record(self) -> (r: MusicFileRecord)
        ensures
            r@ == self@.record,
    {
        self.record
    }
}

/// The phase asks for the value of a field.
pub open spec fn asks_for_value(phase: SinglePhase) -> bool {
    phase is Text || phase is Year || phase is TrackNumber || phase is TotalTracks
}

/// Entering again what the prompt of a text field or of the year was filled
/// with leaves the record, the unsaved mark and the status as they are, and
/// leads back to the menu: no write is asked for.
pub proof fn lemma_same_value_changes_nothing(fields: FieldsModel, state: SingleState)
    requires
        state.phase is Text || state.phase is Year,
    ensures
        after_line(fields, state, prefill_text(fields, state.phase)) == (fields, state.at_menu()),
{
    crate::decimal::lemma_field_text_round_trip(year_or_zero(fields.year), 0);
}

/// Entering again the track number and then the track count that the two
/// prompts were filled with leaves the record, the unsaved mark and the
/// status as they are, and leads back to the menu.
pub proof fn lemma_same_track_changes_nothing(fields: FieldsModel, state: SingleState)
    requires
        state.phase is TrackNumber,
    ensures
        ({
            let (fields1, state1) = after_line(fields, state, prefill_text(fields, state.phase));
            &&& fields1 == fields
            &&& state1.phase == (SinglePhase::TotalTracks {
                track_number: count_or_zero(fields.track_number),
            })
            &&& after_line(fields1, state1, prefill_text(fields1, state1.phase)) == (
                fields,
                state.at_menu(),
            )
        }),
{
    crate::decimal::lemma_field_text_round_trip(0, count_or_zero(fields.track_number));
    crate::decimal::lemma_field_text_round_trip(0, count_or_zero(fields.total_tracks));
}

/// A line that is no number of the field asked for is reported and changes
/// neither the record nor the unsaved mark. This holds for the track count
/// too: the track number entered before it is dropped with it.
pub proof fn lemma_not_a_number_changes_nothing(
    fields: FieldsModel,
    state: SingleState,
    line: Seq<char>,
)
    requires
        state.phase is Year && i32_text_value(line) is None || (state.phase is TrackNumber
            || state.phase is TotalTracks) && u16_text_value(line) is None,
    ensures
        after_line(fields, state, line) == (fields, state.rejected(Status::NotANumber)),
        state.rejected(Status::NotANumber).modified == state.modified,
{
}

/// The record changes only at the prompt of a field, and then the unsaved
/// mark is set; a change never clears the mark.
pub proof fn lemma_change_sets_mark(fields: FieldsModel, state: SingleState, line: Seq<char>)
    ensures
        ({
            let (fields1, state1) = after_line(fields, state, line);
            &&& fields1 != fields ==> asks_for_value(state.phase) && state1.modified
            &&& state.modified ==> state1.modified
        }),
{
}

/// A write is asked for only by the save selection at the menu.
pub proof fn lemma_write_only_on_save(fields: FieldsModel, state: SingleState, line: Seq<char>)
    requires
        state.phase != SinglePhase::Saving,
    ensures
        after_line(fields, state, line).1.phase == SinglePhase::Saving <==> state.phase
            == SinglePhase::Menu && single_choice(line) == SingleChoice::Save,
{
}

/// After the outcome of a write the unsaved mark is clear if the write
/// succeeded, and as it was before if it failed; the failure is reported.
pub proof fn lemma_write_outcome(state: SingleState, ok: bool)
    requires
        state.phase == SinglePhase::Saving,
    ensures
        state.after_write(ok).modified == (state.modified && !ok),
        state.after_write(ok).phase == SinglePhase::Menu,
        state.after_write(ok).status == if ok {
            Status::SaveSuccessful
        } else {
            Status::WriteFailed
        },
{
}

/// The session ends only from the menu with nothing unsaved, or on the answer
/// yes to the question whether unsaved changes may be lost; any other answer
/// leads back to the menu. Neither way touches the record.
pub proof fn lemma_exit(fields: FieldsModel, state: SingleState, line: Seq<char>)
    requires
        state.phase != SinglePhase::Done,
    ensures
        ({
            let (fields1, state1) = after_line(fields, state, line);
            &&& state1.phase == SinglePhase::Done <==> (state.phase == SinglePhase::Menu
                && single_choice(line) == SingleChoice::Exit && !state.modified) || (state.phase
                == SinglePhase::ConfirmExit && says_yes(line))
            &&& state.phase == SinglePhase::ConfirmExit ==> fields1 == fields && state1.modified
                == state.modified && (state1.phase == SinglePhase::Done || state1.phase
                == SinglePhase::Menu)
            &&& state1.phase == SinglePhase::ConfirmExit <==> state.phase == SinglePhase::Menu
                && single_choice(line) == SingleChoice::Exit && state.modified
        }),
{
}

} // verus!
