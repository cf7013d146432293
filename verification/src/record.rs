//! Records: the binding of a file's path to its decoded tag, and the working
//! set that a load leaves.

use crate::fields::{FieldsModel, TagFields};
use vstd::prelude::*;

verus! {

/// One file of the working set: where it lies and what its tag holds.
#[derive(Clone, Debug, PartialEq, Eq)]
pub struct MusicFileRecord {
    pub path: String,
    pub fields: TagFields,
}

/// The mathematical value of a [`MusicFileRecord`].
pub struct RecordModel {
    pub path: Seq<char>,
    pub fields: FieldsModel,
}

impl View for MusicFileRecord {
    type V = RecordModel;

    open spec fn view(&self) -> RecordModel {
        RecordModel { path: self.path@, fields: self.fields@ }
    }
}

/// The mathematical values of a sequence of records.
pub open spec fn records_model(records: Seq<MusicFileRecord>) -> Seq<RecordModel> {
    Seq::new(records.len(), |i: int| records[i]@)
}

/// The file is not one whose tag can be decoded.
#[derive(Clone, Debug, PartialEq, Eq)]
pub struct UnreadableTag {
    pub path: String,
}

/// A path together with what decoding its file gave: the tag, or nothing
/// where the file is not recognised as audio.
#[derive(Clone, Debug, PartialEq, Eq)]
pub struct Candidate {
    pub path: String,
    pub decoded: Option<TagFields>,
}

/// The mathematical value of a [`Candidate`].
pub struct CandidateModel {
    pub path: Seq<char>,
    pub decoded: Option<FieldsModel>,
}

impl View for Candidate {
    type V = CandidateModel;

    open spec fn view(&self) -> CandidateModel {
        CandidateModel {
            path: self.path@,
            decoded: match self.decoded {
                Some(fields) => Some(fields@),
                None => None,
            },
        }
    }
}

/// The mathematical values of a sequence of candidates.
pub open spec fn candidates_model(candidates: Seq<Candidate>) -> Seq<CandidateModel> {
    Seq::new(candidates.len(), |i: int| candidates[i]@)
}

/// The record that a candidate becomes, if it was decoded.
pub open spec fn record_of(candidate: CandidateModel) -> Option<RecordModel> {
    match candidate.decoded {
        Some(fields) => Some(RecordModel { path: candidate.path, fields }),
        None => None,
    }
}

/// The working set that a list of candidates leaves: one record for each
/// candidate that was decoded, in the order of the list.
pub open spec fn working_set(candidates: Seq<CandidateModel>) -> Seq<RecordModel> {
    candidates.filter_map(|c: CandidateModel| record_of(c))
}

/// The number of candidates that were decoded.
pub open spec fn decoded_count(candidates: Seq<CandidateModel>) -> nat {
    candidates.filter(|c: CandidateModel| c.decoded is Some).len()
}

/// The number of candidates that were not decoded.
pub open spec fn undecoded_count(candidates: Seq<CandidateModel>) -> nat {
    candidates.filter(|c: CandidateModel| c.decoded is None).len()
}

impl MusicFileRecord {
    /// Binds `path` to the tag decoded from it. Fails exactly where decoding
    /// gave nothing, and then names the path.
    pub fn load(path: String, decoded: Option<TagFields>) -> (r: Result<
        MusicFileRecord,
        UnreadableTag,
    >)
        ensures
            match r {
                Ok(record) => decoded matches Some(fields) && record@ == (RecordModel {
                    path: path@,
                    fields: fields@,
                }),
                Err(e) => decoded is None && e.path@ == path@,
            },
    {
        match decoded {
            Some(fields) => Ok(MusicFileRecord { path, fields }),
            None => Err(UnreadableTag { path }),
        }
    }
}

/// Builds the working set of a batch: the candidates that were decoded become
/// records, in order; the others are passed over.
pub fn load_all(candidates: Vec<Candidate>) -> (records: Vec<MusicFileRecord>)
    ensures
        records_model(records@) == working_set(candidates_model(candidates@)),
{
    let ghost all = candidates_model(candidates@);
    let mut records: Vec<MusicFileRecord> = Vec::new();
    for c in it: candidates
        invariant
            it.seq() == candidates@,
            all == candidates_model(candidates@),
            records_model(records@) == working_set(all.subrange(0, it.index())),
    {
        let ghost k = it.index();
        let ghost old_records = records@;
        assert(all.subrange(0, k + 1).drop_last() =~= all.subrange(0, k));
        assert(c@ == all[k]);
        match MusicFileRecord::load(c.path, c.decoded) {
            Ok(record) => {
                records.push(record);
                assert(records_model(records@) =~= records_model(old_records) + seq![record@]);
            },
            Err(_) => {},
        }
    }
    assert(all.subrange(0, all.len() as int) =~= all);
    records
}

/// Of candidates of which some were decoded and the others were not, the
/// working set holds exactly as many records as were decoded, and every one
/// of its records is a decoded candidate.
pub proof fn lemma_working_set_count(candidates: Seq<CandidateModel>)
    ensures
        working_set(candidates).len() == decoded_count(candidates),
        decoded_count(candidates) + undecoded_count(candidates) == candidates.len(),
        forall|r: RecordModel|
            working_set(candidates).contains(r) ==> candidates.contains(
                CandidateModel { path: r.path, decoded: Some(r.fields) },
            ),
    decreases candidates.len(),
{
    reveal(Seq::filter);
    if candidates.len() > 0 {
        let before = candidates.drop_last();
        let last = candidates.last();
        lemma_working_set_count(before);
        assert forall|r: RecordModel| working_set(candidates).contains(r) implies candidates.contains(
            CandidateModel { path: r.path, decoded: Some(r.fields) },
        ) by {
            let i = choose|i: int|
                0 <= i < working_set(candidates).len() && working_set(candidates)[i] == r;
            let from = CandidateModel { path: r.path, decoded: Some(r.fields) };
            if i < working_set(before).len() {
                assert(working_set(before)[i] == r);
                assert(working_set(before).contains(r));
                let j = choose|j: int| 0 <= j < before.len() && before[j] == from;
                assert(candidates[j] == from);
            } else {
                assert(last == from);
                assert(candidates[candidates.len() - 1] == from);
            }
        }
    }
}

/// How often a record stands in the working set: as often as the candidate it
/// was decoded from stands among the candidates.
proof fn lemma_working_set_counts(candidates: Seq<CandidateModel>, r: RecordModel)
    ensures
        working_set(candidates).to_multiset().count(r) == candidates.to_multiset().count(
            CandidateModel { path: r.path, decoded: Some(r.fields) },
        ),
    decreases candidates.len(),
{
    broadcast use vstd::seq_lib::group_to_multiset_ensures;

    let from = CandidateModel { path: r.path, decoded: Some(r.fields) };
    if candidates.len() == 0 {
        assert(working_set(candidates) =~= Seq::<RecordModel>::empty());
        assert(candidates.to_multiset().count(from) == 0) by {
            assert(!candidates.contains(from));
        }
        assert(working_set(candidates).to_multiset().count(r) == 0) by {
            assert(!working_set(candidates).contains(r));
        }
    } else {
        let before = candidates.drop_last();
        let last = candidates.last();
        lemma_working_set_counts(before, r);
        assert(candidates =~= before.push(last));
        assert(candidates.to_multiset() =~= before.to_multiset().insert(last));
        match record_of(last) {
            Some(record) => {
                assert(working_set(candidates) =~= working_set(before).push(record));
                assert(working_set(candidates).to_multiset() =~= working_set(
                    before,
                ).to_multiset().insert(record));
                assert((record == r) == (last == from));
            },
            None => {
                assert(last != from);
            },
        }
    }
}

/// The working set does not depend on the order in which the files were
/// found: candidates that are the same up to their order leave working sets
/// that are the same up to their order, and so of the same size.
pub proof fn lemma_working_set_any_order(a: Seq<CandidateModel>, b: Seq<CandidateModel>)
    requires
        a.to_multiset() == b.to_multiset(),
    ensures
        working_set(a).to_multiset() == working_set(b).to_multiset(),
        working_set(a).len() == working_set(b).len(),
        decoded_count(a) == decoded_count(b),
{
    broadcast use vstd::seq_lib::group_to_multiset_ensures;

    assert forall|r: RecordModel|
        working_set(a).to_multiset().count(r) == working_set(b).to_multiset().count(r) by {
        lemma_working_set_counts(a, r);
        lemma_working_set_counts(b, r);
    }
    assert(working_set(a).to_multiset() =~= working_set(b).to_multiset());
    working_set(a).to_multiset_ensures();
    working_set(b).to_multiset_ensures();
    lemma_working_set_count(a);
    lemma_working_set_count(b);
}

} // verus!
