//! The index of what has been generated, and the rule that names and
//! records a new artifact.

use vstd::prelude::*;
use vstd::string::*;
use crate::error::PipelineError;
use crate::text::{decimal, decimal_text};

verus! {

/// One generation: the name of the artifact, the request it answers and
/// the label the request was classified under.
#[derive(Clone, Debug, PartialEq, Eq)]
pub struct ArtifactRecord {
    pub id: String,
    pub query: String,
    pub label: String,
}

/// A record as mathematics.
pub struct RecordView {
    pub id: Seq<char>,
    pub query: Seq<char>,
    pub label: Seq<char>,
}

impl View for ArtifactRecord {
    type V = RecordView;

    open spec fn view(&self) -> RecordView {
        RecordView { id: self.id@, query: self.query@, label: self.label@ }
    }
}

/// The records of all generations so far, oldest first.
#[derive(Clone, Debug, PartialEq, Eq)]
pub struct GenerationIndex {
    pub records: Vec<ArtifactRecord>,
}

impl View for GenerationIndex {
    type V = Seq<RecordView>;

    open spec fn view(&self) -> Seq<RecordView> {
        Seq::new(self.records@.len(), |i: int| self.records@[i]@)
    }
}

/// Whether the artifact reached the disk.
#[derive(Clone, Copy, Debug, PartialEq, Eq, Structural)]
pub enum WriteOutcome {
    Written,
    Failed,
}

/// The name of an artifact: the drawn number in decimal, an underscore,
/// the label.
pub open spec fn artifact_name(random: nat, label: Seq<char>) -> Seq<char> {
    decimal(random) + "_"@ + label
}

/// The index after one call of `persist` on `index`.
pub open spec fn after_persist(
    index: Seq<RecordView>,
    record: RecordView,
    outcome: WriteOutcome,
) -> Seq<RecordView> {
    match outcome {
        WriteOutcome::Written => index.push(record),
        WriteOutcome::Failed => index,
    }
}

/// The index after one successful call of `persist` for each of `records`,
/// in their order.
pub open spec fn after_all(index: Seq<RecordView>, records: Seq<RecordView>) -> Seq<RecordView>
    decreases records.len(),
{
    if records.len() == 0 {
        index
    } else {
        after_all(
            after_persist(index, records.first(), WriteOutcome::Written),
            records.drop_first(),
        )
    }
}

impl GenerationIndex {
    /// The empty index, as on a first run.
    pub fn new() -> (r: GenerationIndex)
        ensures
            r@.len() == 0,
    {
        GenerationIndex { records: Vec::new() }
    }

    /// The number of records.
    pub fn len(&self) -> (n: usize)
        ensures
            n == self@.len(),
    {
        self.records.len()
    }
}

/// Names an artifact from a drawn number and its label. No name is held
/// against those already given.
pub fn artifact_id(random: u128, label: &str) -> (r: String)
    ensures
        r@ == artifact_name(random as nat, label@),
{
    let mut r: String = decimal_text(random);
    r.append("_");
    r.append(label);
    r
}

/// Records a generation once the write of its artifact has been tried.
///
/// Where the artifact was written, one record of `id`, `query` and `label`
/// is put behind all earlier ones and the name is handed back. Where the
/// write failed the index stays as it was and the failure is reported.
pub fn persist(
    index: &mut GenerationIndex,
    id: &str,
    query: &str,
    label: &str,
    outcome: WriteOutcome,
) -> (r: Result<String, PipelineError>)
    ensures
        final(index)@ == after_persist(
            old(index)@,
            RecordView { id: id@, query: query@, label: label@ },
            outcome,
        ),
        match outcome {
            WriteOutcome::Written => r matches Ok(name) && name@ == id@,
            WriteOutcome::Failed => r matches Err(e) && e == PipelineError::Persistence,
        },
{
    match outcome {
        WriteOutcome::Written => {
            let record = ArtifactRecord {
                id: String::from_str(id),
                query: String::from_str(query),
                label: String::from_str(label),
            };
            index.records.push(record);
            assert(index@ =~= old(index)@.push(
                RecordView { id: id@, query: query@, label: label@ },
            ));
            Ok(String::from_str(id))
        },
        WriteOutcome::Failed => {
            Err(PipelineError::Persistence)
        },
    }
}

/// Recording is append-only: after one successful call for each of
/// `records`, the index is what it was with `records` behind it, in the
/// order of the calls, so it has grown by exactly their number.
pub proof fn lemma_persist_appends(index: Seq<RecordView>, records: Seq<RecordView>)
    ensures
        after_all(index, records) == index + records,
        after_all(index, records).len() == index.len() + records.len(),
    decreases records.len(),
{
    if records.len() == 0 {
        assert(index + records =~= index);
    } else {
        lemma_persist_appends(index.push(records.first()), records.drop_first());
        assert(index.push(records.first()) + records.drop_first() =~= index + records);
    }
}

/// A failed write leaves no trace: whatever was to be recorded, the index
/// after the call is the index before it.
pub proof fn lemma_failed_write_keeps_index(index: Seq<RecordView>, record: RecordView)
    ensures
        after_persist(index, record, WriteOutcome::Failed) == index,
{
}

} // verus!
