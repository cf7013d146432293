use tag_editor::fields::{TagFields, TextField};
use tag_editor::reconcile::{
    differs_text, reconcile, reconcile_text, reconcile_total_tracks, reconcile_year,
};
use tag_editor::record::MusicFileRecord;

fn with_artist(path: &str, artist: Option<&str>) -> MusicFileRecord {
    let mut fields = TagFields::new();
    fields.artist = artist.map(|a| a.to_string());
    MusicFileRecord { path: path.to_string(), fields }
}

fn with_numbers(year: Option<i32>, total: Option<u16>) -> MusicFileRecord {
    let mut fields = TagFields::new();
    fields.year = year;
    fields.total_tracks = total;
    MusicFileRecord { path: "a.mp3".to_string(), fields }
}

#[test]
fn two_records_that_differ_reconcile_to_the_sentinel() {
    let records = vec![with_artist("a", Some("A")), with_artist("b", Some("B"))];
    assert_eq!(reconcile_text(&records, TextField::Artist), "<differs>");
    let records = vec![with_artist("a", Some("A")), with_artist("b", None)];
    assert_eq!(reconcile_text(&records, TextField::Artist), "<differs>");
    let records = vec![with_artist("a", None), with_artist("b", Some(""))];
    assert_eq!(reconcile_text(&records, TextField::Artist), "<differs>");
}

#[test]
fn records_that_agree_reconcile_to_their_value() {
    let records = vec![
        with_artist("a", Some("Same")),
        with_artist("b", Some("Same")),
        with_artist("c", Some("Same")),
    ];
    assert_eq!(reconcile_text(&records, TextField::Artist), "Same");
}

#[test]
fn records_without_the_field_reconcile_to_none() {
    let records = vec![with_artist("a", None), with_artist("b", None)];
    assert_eq!(reconcile_text(&records, TextField::Artist), "<none>");
    assert_eq!(reconcile_text(&records, TextField::Title), "<none>");
}

#[test]
fn absent_compares_as_the_text_none() {
    let records = vec![with_artist("a", None), with_artist("b", Some("<none>"))];
    assert_eq!(reconcile_text(&records, TextField::Artist), "<none>");
}

#[test]
fn a_single_record_reconciles_to_its_own_value() {
    let records = vec![with_artist("a", Some("Solo"))];
    assert_eq!(reconcile_text(&records, TextField::Artist), "Solo");
    let records = vec![with_artist("a", None)];
    assert_eq!(reconcile_text(&records, TextField::Artist), "<none>");
}

#[test]
fn disagreement_is_not_forgotten() {
    let records = vec![
        with_artist("a", Some("A")),
        with_artist("b", Some("B")),
        with_artist("c", Some("A")),
        with_artist("d", Some("<differs>")),
    ];
    assert_eq!(reconcile_text(&records, TextField::Artist), "<differs>");
    let records = vec![
        with_artist("a", Some("A")),
        with_artist("b", Some("A")),
        with_artist("c", Some("A")),
        with_artist("d", Some("B")),
    ];
    assert_eq!(reconcile_text(&records, TextField::Artist), "<differs>");
}

#[test]
fn the_order_of_the_records_does_not_matter() {
    let one = vec![with_artist("a", Some("A")), with_artist("b", Some("A")), with_artist("c", Some("B"))];
    let two = vec![with_artist("c", Some("B")), with_artist("a", Some("A")), with_artist("b", Some("A"))];
    assert_eq!(
        reconcile_text(&one, TextField::Artist),
        reconcile_text(&two, TextField::Artist)
    );
}

#[test]
fn no_record_reconciles_to_the_display_defaults() {
    let records: Vec<MusicFileRecord> = Vec::new();
    assert_eq!(reconcile_text(&records, TextField::Album), "<none>");
    assert_eq!(reconcile_year(&records), 0);
    assert_eq!(reconcile_total_tracks(&records), 0);
}

#[test]
fn years_reconcile_to_the_common_year_or_zero() {
    let records = vec![with_numbers(Some(1999), None), with_numbers(Some(1999), None)];
    assert_eq!(reconcile_year(&records), 1999);
    let records = vec![with_numbers(Some(1999), None), with_numbers(Some(2000), None)];
    assert_eq!(reconcile_year(&records), 0);
    let records = vec![with_numbers(Some(1999), None), with_numbers(None, None)];
    assert_eq!(reconcile_year(&records), 0);
    let records = vec![with_numbers(None, None), with_numbers(Some(0), None)];
    assert_eq!(reconcile_year(&records), 0);
    let records = vec![with_numbers(Some(-3), None), with_numbers(Some(-3), None)];
    assert_eq!(reconcile_year(&records), -3);
}

#[test]
fn a_zero_year_hides_a_later_disagreement() {
    let records = vec![
        with_numbers(Some(0), None),
        with_numbers(Some(1999), None),
        with_numbers(Some(1999), None),
    ];
    assert_eq!(reconcile_year(&records), 0);
}

#[test]
fn track_counts_reconcile_to_the_common_count_or_zero() {
    let records = vec![with_numbers(None, Some(12)), with_numbers(None, Some(12))];
    assert_eq!(reconcile_total_tracks(&records), 12);
    let records = vec![with_numbers(None, Some(12)), with_numbers(None, Some(13))];
    assert_eq!(reconcile_total_tracks(&records), 0);
    let records = vec![with_numbers(None, None), with_numbers(None, None)];
    assert_eq!(reconcile_total_tracks(&records), 0);
}

#[test]
fn reconcile_fills_every_shared_field() {
    let mut first = TagFields::new();
    first.artist = Some("A".to_string());
    first.album = Some("Album".to_string());
    first.year = Some(2001);
    first.total_tracks = Some(2);
    first.title = Some("One".to_string());
    let mut second = TagFields::new();
    second.artist = Some("B".to_string());
    second.album = Some("Album".to_string());
    second.year = Some(2001);
    second.total_tracks = Some(3);
    second.title = Some("Two".to_string());
    let records = vec![
        MusicFileRecord { path: "1.flac".to_string(), fields: first },
        MusicFileRecord { path: "2.flac".to_string(), fields: second },
    ];
    let group = reconcile(&records);
    assert_eq!(group.artist, "<differs>");
    assert_eq!(group.album_artist, "<none>");
    assert_eq!(group.album, "Album");
    assert_eq!(group.year, 2001);
    assert_eq!(group.total_tracks, 0);
}

#[test]
fn the_sentinels_are_spelled_as_shown() {
    assert_eq!(differs_text(), "<differs>");
    assert_eq!(tag_editor::fields::none_text(), "<none>");
}
