use tag_editor::batch::{
    set_all_text, set_all_total_tracks, set_all_year, BatchPhase, BatchSession, NoRecords,
};
use tag_editor::fields::{TagFields, TextField};
use tag_editor::reconcile::{reconcile, SharedText};
use tag_editor::record::MusicFileRecord;
use tag_editor::single::SinglePhase;
use tag_editor::status::Status;

fn record(path: &str, artist: Option<&str>) -> MusicFileRecord {
    let mut fields = TagFields::new();
    fields.artist = artist.map(|a| a.to_string());
    fields.title = Some(path.to_string());
    MusicFileRecord { path: path.to_string(), fields }
}

fn three() -> BatchSession {
    BatchSession::new(vec![
        record("1.mp3", Some("A")),
        record("2.mp3", Some("A")),
        record("3.mp3", Some("B")),
    ])
    .unwrap()
}

fn many(count: usize) -> BatchSession {
    let mut records = Vec::new();
    for i in 0..count {
        records.push(record(&format!("{}.mp3", i), Some("A")));
    }
    BatchSession::new(records).unwrap()
}

fn enter(session: BatchSession, line: &str) -> BatchSession {
    session.submit(line.to_string())
}

fn artists(session: &BatchSession) -> Vec<Option<String>> {
    session.records().iter().map(|r| r.fields.artist.clone()).collect()
}

#[test]
fn a_batch_needs_a_record() {
    assert_eq!(BatchSession::new(Vec::new()).err(), Some(NoRecords));
    assert!(BatchSession::new(vec![record("1.mp3", None)]).is_ok());
}

#[test]
fn a_batch_begins_with_the_reconciled_view() {
    let session = three();
    assert_eq!(session.phase(), BatchPhase::Menu);
    assert_eq!(session.status(), Status::Clear);
    assert!(!session.is_modified());
    assert!(!session.is_done());
    assert_eq!(session.group().artist, "<differs>");
    assert_eq!(session.group().album_artist, "<none>");
    assert_eq!(session.group().album, "<none>");
    assert_eq!(session.group().year, 0);
    assert_eq!(session.group().total_tracks, 0);
    assert_eq!(session.records().len(), 3);
    assert_eq!(session.pending_write(), None);
    assert_eq!(session.prefill(), "");
}

#[test]
fn setting_the_artist_reaches_all_three_records() {
    let mut session = three();
    assert_eq!(session.group().artist, "<differs>");
    session = enter(session, "1");
    assert_eq!(session.phase(), BatchPhase::Text(SharedText::Artist));
    session = enter(session, "C");
    assert_eq!(session.phase(), BatchPhase::Menu);
    assert_eq!(
        artists(&session),
        vec![Some("C".to_string()), Some("C".to_string()), Some("C".to_string())]
    );
    assert_eq!(session.group().artist, "C");
    assert_eq!(reconcile(session.records()).artist, "C");
    assert!(session.is_modified());
    // Nothing else in the records was touched.
    assert_eq!(session.records()[1].fields.title, Some("2.mp3".to_string()));
    assert_eq!(session.records()[1].path, "2.mp3");
    assert_eq!(session.records()[2].fields.album, None);
}

#[test]
fn each_shared_text_field_reaches_its_own_field() {
    for (key, field, shared) in [
        ("1", TextField::Artist, SharedText::Artist),
        ("2", TextField::AlbumArtist, SharedText::AlbumArtist),
        ("3", TextField::Album, SharedText::Album),
    ] {
        let mut session = three();
        session = enter(session, key);
        assert_eq!(session.phase(), BatchPhase::Text(shared));
        session = enter(session, "V");
        for r in session.records() {
            assert_eq!(r.fields.text(field), &Some("V".to_string()));
        }
        assert_eq!(session.group().text(shared), "V");
        assert!(session.is_modified());
    }
}

#[test]
fn entering_what_the_group_view_shows_changes_nothing() {
    let mut session = three();
    session = enter(session, "1");
    session = enter(session, "<differs>");
    assert_eq!(session.phase(), BatchPhase::Menu);
    assert!(!session.is_modified());
    assert_eq!(
        artists(&session),
        vec![Some("A".to_string()), Some("A".to_string()), Some("B".to_string())]
    );
    session = enter(session, "3");
    session = enter(session, "<none>");
    assert!(!session.is_modified());
    assert_eq!(session.records()[0].fields.album, None);
    session = enter(session, "4");
    session = enter(session, "0");
    assert!(!session.is_modified());
    assert_eq!(session.records()[0].fields.year, None);
    session = enter(session, "5");
    session = enter(session, "0");
    assert!(!session.is_modified());
    assert_eq!(session.pending_write(), None);
}

#[test]
fn the_shared_year_reaches_every_record() {
    let mut session = three();
    session = enter(session, "4");
    assert_eq!(session.phase(), BatchPhase::Year);
    session = enter(session, "1984");
    for r in session.records() {
        assert_eq!(r.fields.year, Some(1984));
    }
    assert_eq!(session.group().year, 1984);
    assert_eq!(reconcile(session.records()).year, 1984);
    assert!(session.is_modified());
}

#[test]
fn the_shared_track_count_reaches_every_record() {
    let mut session = three();
    session = enter(session, "5");
    assert_eq!(session.phase(), BatchPhase::TotalTracks);
    session = enter(session, "14");
    for r in session.records() {
        assert_eq!(r.fields.total_tracks, Some(14));
    }
    assert_eq!(session.group().total_tracks, 14);
    assert!(session.is_modified());
}

#[test]
fn text_that_is_no_number_is_reported_in_a_batch() {
    let mut session = three();
    session = enter(session, "4");
    session = enter(session, "abc");
    assert_eq!(session.status(), Status::NotANumber);
    assert_eq!(session.phase(), BatchPhase::Menu);
    assert!(!session.is_modified());
    session = enter(session, "5");
    assert_eq!(session.status(), Status::Clear);
    session = enter(session, "-1");
    assert_eq!(session.status(), Status::NotANumber);
    assert!(!session.is_modified());
    for r in session.records() {
        assert_eq!(r.fields.year, None);
        assert_eq!(r.fields.total_tracks, None);
    }
}

#[test]
fn an_unknown_batch_selection_is_reported() {
    let mut session = three();
    for line in ["x", "", "s", "S", "6", "7", "8", "cc"] {
        session = enter(session, line);
        assert_eq!(session.status(), Status::InvalidOption);
        assert_eq!(session.phase(), BatchPhase::Menu);
    }
}

#[test]
fn the_number_of_records_becomes_the_track_count() {
    for key in ["c", "C"] {
        let mut session = many(5);
        session = enter(session, key);
        assert_eq!(session.phase(), BatchPhase::ConfirmTotal { count: 5 });
        session = enter(session, "y");
        assert_eq!(session.phase(), BatchPhase::Menu);
        assert_eq!(session.records().len(), 5);
        for r in session.records() {
            assert_eq!(r.fields.total_tracks, Some(5));
        }
        assert_eq!(session.group().total_tracks, 5);
        assert!(session.is_modified());
    }
}

#[test]
fn the_track_count_is_not_taken_without_a_yes() {
    for answer in ["", "n", "N", "yes", "1"] {
        let mut session = many(4);
        session = enter(session, "c");
        session = enter(session, answer);
        assert_eq!(session.phase(), BatchPhase::Menu);
        assert!(!session.is_modified());
        for r in session.records() {
            assert_eq!(r.fields.total_tracks, None);
        }
        assert_eq!(session.group().total_tracks, 0);
    }
}

#[test]
fn too_many_records_for_a_track_count_are_reported() {
    let mut session = many(65536);
    session = enter(session, "c");
    assert_eq!(session.status(), Status::TooManyFiles);
    assert_eq!(session.phase(), BatchPhase::Menu);
    assert!(!session.is_modified());
    assert_eq!(session.records()[0].fields.total_tracks, None);
    assert_eq!(session.records()[65535].fields.total_tracks, None);
    let mut session = many(65535);
    session = enter(session, "c");
    assert_eq!(session.phase(), BatchPhase::ConfirmTotal { count: 65535 });
    session = enter(session, "Y");
    assert_eq!(session.records()[65534].fields.total_tracks, Some(65535));
}

#[test]
fn a_save_pass_writes_every_record_in_order() {
    let mut session = three();
    session = enter(session, "1");
    session = enter(session, "C");
    session = enter(session, "9");
    assert_eq!(session.phase(), BatchPhase::Saving { next: 0, failed: false });
    assert_eq!(session.pending_write(), Some(0));
    session = session.written(true);
    assert_eq!(session.pending_write(), Some(1));
    session = session.written(true);
    assert_eq!(session.pending_write(), Some(2));
    session = session.written(true);
    assert_eq!(session.pending_write(), None);
    assert_eq!(session.phase(), BatchPhase::Menu);
    assert_eq!(session.status(), Status::SaveSuccessful);
    assert!(!session.is_modified());
}

#[test]
fn one_failed_write_keeps_the_batch_unsaved() {
    // The second of three files has gone missing: its write fails, the others succeed.
    let mut session = three();
    session = enter(session, "1");
    session = enter(session, "C");
    session = enter(session, "9");
    session = session.written(true);
    session = session.written(false);
    assert_eq!(session.pending_write(), Some(2));
    session = session.written(true);
    assert_eq!(session.phase(), BatchPhase::Menu);
    assert!(session.is_modified());
    assert_eq!(session.status(), Status::BatchWriteFailed);
    assert!(session.status().message().starts_with("WARNING!"));
    assert_eq!(
        artists(&session),
        vec![Some("C".to_string()), Some("C".to_string()), Some("C".to_string())]
    );
}

#[test]
fn a_failure_anywhere_in_the_pass_counts() {
    for failing in 0..3 {
        let mut session = three();
        session = enter(session, "3");
        session = enter(session, "Album");
        session = enter(session, "9");
        for i in 0..3 {
            assert_eq!(session.pending_write(), Some(i));
            session = session.written(i != failing);
        }
        assert!(session.is_modified());
        assert_eq!(session.status(), Status::BatchWriteFailed);
        // A second pass in which every write succeeds clears the mark.
        session = enter(session, "9");
        for _ in 0..3 {
            session = session.written(true);
        }
        assert!(!session.is_modified());
        assert_eq!(session.status(), Status::SaveSuccessful);
    }
}

#[test]
fn a_clean_batch_stays_clean_when_a_write_fails() {
    let mut session = three();
    session = enter(session, "9");
    session = session.written(false);
    session = session.written(false);
    session = session.written(false);
    assert!(!session.is_modified());
    assert_eq!(session.status(), Status::BatchWriteFailed);
}

#[test]
fn a_line_is_ignored_during_a_save_pass() {
    let mut session = three();
    session = enter(session, "9");
    session = enter(session, "1");
    assert_eq!(session.phase(), BatchPhase::Saving { next: 0, failed: false });
}

#[test]
fn leaving_a_batch_with_unsaved_changes_needs_a_yes() {
    let mut session = three();
    session = enter(session, "0");
    assert!(session.is_done());
    let mut session = three();
    session = enter(session, "1");
    session = enter(session, "C");
    session = enter(session, "0");
    assert_eq!(session.phase(), BatchPhase::ConfirmExit);
    session = enter(session, "");
    assert_eq!(session.phase(), BatchPhase::Menu);
    session = enter(session, "0");
    session = enter(session, "n");
    assert_eq!(session.phase(), BatchPhase::Menu);
    assert!(session.is_modified());
    session = enter(session, "0");
    session = enter(session, "Y");
    assert_eq!(session.phase(), BatchPhase::Done);
    session = enter(session, "1");
    session = session.written(true);
    assert_eq!(session.phase(), BatchPhase::Done);
    let records = session.into_records();
    assert_eq!(records.len(), 3);
    assert_eq!(records[0].fields.artist, Some("C".to_string()));
}

#[test]
fn a_record_is_chosen_by_its_number() {
    for key in ["v", "V"] {
        let mut session = three();
        session = enter(session, key);
        assert_eq!(session.phase(), BatchPhase::Choosing);
        session = enter(session, "3");
        assert_eq!(session.phase(), BatchPhase::Record { index: 2, in_sequence: false });
        assert_eq!(session.record_state().phase, SinglePhase::Menu);
        session = enter(session, "1");
        assert_eq!(session.record_state().phase, SinglePhase::Text(TextField::Title));
        assert_eq!(session.prefill(), "3.mp3");
        session = enter(session, "Third");
        assert!(session.record_state().modified);
        assert_eq!(session.records()[2].fields.title, Some("Third".to_string()));
        assert_eq!(session.records()[0].fields.title, Some("1.mp3".to_string()));
        assert_eq!(session.records()[1].fields.title, Some("2.mp3".to_string()));
        // The batch itself has nothing unsaved, and its view stays.
        assert!(!session.is_modified());
        assert_eq!(session.group().artist, "<differs>");
        session = enter(session, "9");
        assert_eq!(session.pending_write(), Some(2));
        session = session.written(true);
        assert_eq!(session.record_state().status, Status::SaveSuccessful);
        assert!(!session.record_state().modified);
        session = enter(session, "0");
        assert_eq!(session.phase(), BatchPhase::Menu);
    }
}

#[test]
fn the_first_and_the_last_record_can_be_chosen() {
    let mut session = three();
    session = enter(session, "v");
    session = enter(session, "1");
    assert_eq!(session.phase(), BatchPhase::Record { index: 0, in_sequence: false });
    session = enter(session, "0");
    assert_eq!(session.phase(), BatchPhase::Menu);
    session = enter(session, "v");
    session = enter(session, "+3");
    assert_eq!(session.phase(), BatchPhase::Record { index: 2, in_sequence: false });
}

#[test]
fn zero_chooses_no_record() {
    let mut session = three();
    session = enter(session, "v");
    session = enter(session, "0");
    assert_eq!(session.phase(), BatchPhase::Menu);
    assert_eq!(session.status(), Status::Clear);
}

#[test]
fn a_selection_that_names_no_record_is_reported() {
    for line in ["4", "100", "abc", "", "-1", "1.0", "99999999999999999999999"] {
        let mut session = three();
        session = enter(session, "v");
        session = enter(session, line);
        assert_eq!(session.phase(), BatchPhase::Menu, "line {:?}", line);
        assert_eq!(session.status(), Status::InvalidSelection);
        assert!(!session.is_modified());
        assert_eq!(session.records()[0].fields.title, Some("1.mp3".to_string()));
    }
}

#[test]
fn a_write_failure_in_a_single_record_is_reported_there() {
    let mut session = three();
    session = enter(session, "v");
    session = enter(session, "2");
    session = enter(session, "2");
    session = enter(session, "Z");
    session = enter(session, "9");
    assert_eq!(session.pending_write(), Some(1));
    session = session.written(false);
    assert_eq!(session.record_state().status, Status::WriteFailed);
    assert!(session.record_state().modified);
    session = enter(session, "0");
    assert_eq!(session.record_state().phase, SinglePhase::ConfirmExit);
    session = enter(session, "y");
    assert_eq!(session.phase(), BatchPhase::Menu);
    assert_eq!(session.records()[1].fields.artist, Some("Z".to_string()));
}

#[test]
fn the_records_are_visited_one_after_another() {
    for key in ["e", "E"] {
        let mut session = three();
        session = enter(session, key);
        assert_eq!(session.phase(), BatchPhase::Record { index: 0, in_sequence: true });
        session = enter(session, "1");
        session = enter(session, "First");
        session = enter(session, "0");
        session = enter(session, "y");
        assert_eq!(session.phase(), BatchPhase::Continue { index: 0 });
        session = enter(session, "");
        assert_eq!(session.phase(), BatchPhase::Record { index: 1, in_sequence: true });
        assert!(!session.record_state().modified);
        session = enter(session, "0");
        assert_eq!(session.phase(), BatchPhase::Continue { index: 1 });
        session = enter(session, "y");
        assert_eq!(session.phase(), BatchPhase::Record { index: 2, in_sequence: true });
        session = enter(session, "0");
        assert_eq!(session.phase(), BatchPhase::Continue { index: 2 });
        session = enter(session, "y");
        assert_eq!(session.phase(), BatchPhase::Menu);
        assert_eq!(session.records()[0].fields.title, Some("First".to_string()));
    }
}

#[test]
fn the_visit_stops_on_a_no_and_keeps_what_was_done() {
    for answer in ["n", "N"] {
        let mut session = three();
        session = enter(session, "e");
        session = enter(session, "1");
        session = enter(session, "First");
        session = enter(session, "9");
        assert_eq!(session.pending_write(), Some(0));
        session = session.written(true);
        session = enter(session, "0");
        assert_eq!(session.phase(), BatchPhase::Continue { index: 0 });
        session = enter(session, answer);
        assert_eq!(session.phase(), BatchPhase::Menu);
        assert_eq!(session.records()[0].fields.title, Some("First".to_string()));
        assert_eq!(session.records()[1].fields.title, Some("2.mp3".to_string()));
    }
}

#[test]
fn the_bulk_setters_touch_one_field_of_every_record() {
    let mut records = vec![record("1.mp3", Some("A")), record("2.mp3", None)];
    set_all_text(&mut records, TextField::Genre, &"Jazz".to_string());
    set_all_year(&mut records, 1959);
    set_all_total_tracks(&mut records, 5);
    for r in &records {
        assert_eq!(r.fields.genre, Some("Jazz".to_string()));
        assert_eq!(r.fields.year, Some(1959));
        assert_eq!(r.fields.total_tracks, Some(5));
        assert_eq!(r.fields.track_number, None);
    }
    assert_eq!(records[0].fields.artist, Some("A".to_string()));
    assert_eq!(records[1].fields.artist, None);
    assert_eq!(records[1].path, "2.mp3");
}
