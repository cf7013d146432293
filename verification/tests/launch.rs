use tag_editor::batch::{BatchPhase, NoRecords};
use tag_editor::fields::TagFields;
use tag_editor::launch::{open_batch, open_single, plan_launch, Launch, PathKind};
use tag_editor::record::{load_all, Candidate, MusicFileRecord, UnreadableTag};
use tag_editor::single::SinglePhase;

fn decoded(path: &str, title: &str) -> Candidate {
    let mut fields = TagFields::new();
    fields.title = Some(title.to_string());
    Candidate { path: path.to_string(), decoded: Some(fields) }
}

fn undecoded(path: &str) -> Candidate {
    Candidate { path: path.to_string(), decoded: None }
}

#[test]
fn the_arguments_decide_what_is_edited() {
    assert_eq!(plan_launch(&vec![]), Launch::NoArguments);
    assert_eq!(plan_launch(&vec![PathKind::Directory]), Launch::Directory);
    assert_eq!(plan_launch(&vec![PathKind::File]), Launch::SingleFile);
    assert_eq!(plan_launch(&vec![PathKind::Other]), Launch::Nothing);
    assert_eq!(plan_launch(&vec![PathKind::File, PathKind::File]), Launch::FileList);
    assert_eq!(plan_launch(&vec![PathKind::Directory, PathKind::Other]), Launch::FileList);
    assert_eq!(
        plan_launch(&vec![PathKind::Other, PathKind::Other, PathKind::Other]),
        Launch::FileList
    );
}

#[test]
fn a_record_is_loaded_from_a_decoded_file() {
    let mut fields = TagFields::new();
    fields.album = Some("Album".to_string());
    let record = MusicFileRecord::load("a.flac".to_string(), Some(fields.clone())).unwrap();
    assert_eq!(record.path, "a.flac");
    assert_eq!(record.fields, fields);
}

#[test]
fn a_file_that_was_not_decoded_gives_no_record() {
    assert_eq!(
        MusicFileRecord::load("notes.txt".to_string(), None),
        Err(UnreadableTag { path: "notes.txt".to_string() })
    );
}

#[test]
fn undecoded_files_are_passed_over() {
    let records = load_all(vec![
        undecoded("cover.jpg"),
        decoded("1.mp3", "One"),
        undecoded("notes.txt"),
        decoded("2.mp3", "Two"),
        decoded("3.mp3", "Three"),
    ]);
    assert_eq!(records.len(), 3);
    assert_eq!(records[0].path, "1.mp3");
    assert_eq!(records[1].path, "2.mp3");
    assert_eq!(records[2].path, "3.mp3");
    assert_eq!(records[2].fields.title, Some("Three".to_string()));
}

#[test]
fn the_order_of_the_files_does_not_change_the_count() {
    let orders = [
        [0usize, 1, 2, 3, 4],
        [4, 3, 2, 1, 0],
        [1, 3, 0, 4, 2],
        [2, 0, 4, 1, 3],
    ];
    for order in orders {
        let files = [
            undecoded("cover.jpg"),
            decoded("1.mp3", "One"),
            undecoded("notes.txt"),
            decoded("2.mp3", "Two"),
            decoded("3.mp3", "Three"),
        ];
        let candidates: Vec<Candidate> = order.iter().map(|&i| files[i].clone()).collect();
        let mut paths: Vec<String> = load_all(candidates).into_iter().map(|r| r.path).collect();
        assert_eq!(paths.len(), 3);
        paths.sort();
        assert_eq!(paths, vec!["1.mp3".to_string(), "2.mp3".to_string(), "3.mp3".to_string()]);
    }
}

#[test]
fn nothing_decoded_leaves_no_working_set() {
    assert!(load_all(Vec::new()).is_empty());
    assert!(load_all(vec![undecoded("a"), undecoded("b")]).is_empty());
    assert_eq!(open_batch(Vec::new()).err(), Some(NoRecords));
    assert_eq!(open_batch(vec![undecoded("a"), undecoded("b")]).err(), Some(NoRecords));
}

#[test]
fn a_batch_opens_over_the_decoded_files() {
    let session = open_batch(vec![
        decoded("1.mp3", "One"),
        undecoded("notes.txt"),
        decoded("2.mp3", "Two"),
    ])
    .unwrap();
    assert_eq!(session.records().len(), 2);
    assert_eq!(session.phase(), BatchPhase::Menu);
    assert!(!session.is_modified());
    assert_eq!(session.group().artist, "<none>");
}

#[test]
fn one_decoded_file_of_a_list_is_still_a_batch() {
    let session = open_batch(vec![undecoded("x"), decoded("only.mp3", "Only")]).unwrap();
    assert_eq!(session.records().len(), 1);
    assert_eq!(session.records()[0].path, "only.mp3");
}

#[test]
fn a_single_session_opens_on_a_decoded_file() {
    let mut fields = TagFields::new();
    fields.title = Some("Old".to_string());
    let session = open_single("song.mp3".to_string(), Some(fields)).unwrap();
    assert_eq!(session.phase(), SinglePhase::Menu);
    assert_eq!(session.record().path, "song.mp3");
    assert_eq!(session.record().fields.title, Some("Old".to_string()));
    assert!(!session.is_modified());
}

#[test]
fn a_single_session_does_not_open_on_another_file() {
    let error = open_single("notes.txt".to_string(), None).err();
    assert_eq!(error, Some(UnreadableTag { path: "notes.txt".to_string() }));
}
