//! How a run begins: what the arguments ask for, and which session the files
//! that were found lead to.

use crate::batch::{BatchModel, BatchSession, NoRecords};
use crate::fields::TagFields;
use crate::record::{
    candidates_model, decoded_count, lemma_working_set_count, load_all, working_set, Candidate,
    MusicFileRecord, RecordModel, UnreadableTag,
};
use crate::single::{SessionModel, SingleSession};
use vstd::prelude::*;

verus! {

/// What a path given as argument names.
#[derive(Clone, Copy, Debug, PartialEq, Eq, Structural)]
pub enum PathKind {
    Directory,
    File,
    /// Neither a directory nor a file.
    Other,
}

/// What the arguments of a run ask for.
#[derive(Clone, Copy, Debug, PartialEq, Eq, Structural)]
pub enum Launch {
    /// No path was given: there is nothing to edit.
    NoArguments,
    /// One directory: a batch over the files in it.
    Directory,
    /// One file: a session on that file alone.
    SingleFile,
    /// One path that is neither: nothing is edited.
    Nothing,
    /// Several paths: a batch over those of them that are files.
    FileList,
}

/// What arguments of the kinds `kinds` ask for.
pub open spec fn launch_of(kinds: Seq<PathKind>) -> Launch {
    if kinds.len() == 0 {
        Launch::NoArguments
    } else if kinds.len() > 1 {
        Launch::FileList
    } else {
        match kinds[0] {
            PathKind::Directory => Launch::Directory,
            PathKind::File => Launch::SingleFile,
            PathKind::Other => Launch::Nothing,
        }
    }
}

/// Decides from the kinds of the paths given what the run is to do.
pub fn plan_launch(kinds: &Vec<PathKind>) -> (r: Launch)
    ensures
        r == launch_of(kinds@),
{
    if kinds.len() == 0 {
        Launch::NoArguments
    } else if kinds.len() > 1 {
        Launch::FileList
    } else {
        match kinds[0] {
            PathKind::Directory => Launch::Directory,
            PathKind::File => Launch::SingleFile,
            PathKind::Other => Launch::Nothing,
        }
    }
}

/// Begins the session on one file. Fails exactly where the file was not
/// decoded.
pub fn open_single(path: String, decoded: Option<TagFields>) -> (r: Result<
    SingleSession,
    UnreadableTag,
>)
    ensures
        match r {
            Ok(session) => decoded matches Some(fields) && session@ == SessionModel::start(
                RecordModel { path: path@, fields: fields@ },
            ),
            Err(e) => decoded is None && e.path@ == path@,
        },
{
    match MusicFileRecord::load(path, decoded) {
        Ok(record) => Ok(SingleSession::new(record)),
        Err(e) => Err(e),
    }
}

/// Begins the batch over the candidates that were decoded; the others are
/// passed over. Fails exactly where none was decoded. A batch it is even
/// where only one was.
pub fn open_batch(candidates: Vec<Candidate>) -> (r: Result<BatchSession, NoRecords>)
    ensures
        match r {
            Ok(session) => {
                &&& decoded_count(candidates_model(candidates@)) > 0
                &&& session@ == BatchModel::start(working_set(candidates_model(candidates@)))
                &&& session@.records.len() == decoded_count(candidates_model(candidates@))
                &&& session@.wf()
            },
            Err(_) => decoded_count(candidates_model(candidates@)) == 0,
        },
{
    proof {
        lemma_working_set_count(candidates_model(candidates@));
    }
    let records = load_all(candidates);
    assert(records@.len() == crate::record::records_model(records@).len());
    BatchSession::new(records)
}

} // verus!
