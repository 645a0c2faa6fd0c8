//! The run of one request as a state machine, and the order of a batch.
//!
//! The driver performs each action (a call of the model, a write) and hands
//! back what happened; every decision is taken here.

use vstd::prelude::*;
use vstd::string::*;
use crate::catalog::{first_missing, Catalog, ContextView};
use crate::error::PipelineError;
use crate::json::{draw_number, json_list_text};
use crate::message::{turn_text, MessageContext, ModelResponse};
use crate::prompt::{
    classify,
    classification_request,
    classify_text,
    context_json,
    generate_text,
    generated_artifact,
    generation_request,
    operation_names,
};
use crate::store::{artifact_id, artifact_name, persist, GenerationIndex, RecordView, WriteOutcome};
use crate::text::strip_quotes;

verus! {

/// Where the run of a request stands.
#[derive(Clone, Debug, PartialEq, Eq)]
pub enum Stage {
    /// The classification request is with the model.
    Classifying,
    /// The generation request is with the model.
    Generating { label: String },
    /// The artifact is being written under `id`.
    Writing { label: String, id: String },
    /// The record is in the index, which is being rewritten.
    Saving { label: String, id: String },
    /// The artifact and the index are on disk.
    Finished { label: String, id: String },
    /// The request was given up.
    Failed,
}

/// What the driver reports after it has performed an action.
#[derive(Clone, Debug, PartialEq, Eq)]
pub enum Event {
    /// The model answered.
    Replied(ModelResponse),
    /// The model could not be reached, or did not answer in time.
    ModelFailed,
    /// The write went through.
    Written,
    /// The write failed.
    WriteFailed,
}

/// What the driver is to do next.
#[derive(Clone, Debug, PartialEq, Eq)]
pub enum Action {
    /// Send these turns to the model, once.
    Invoke(MessageContext),
    /// Write `content` as it is to a new file named `id` in the output
    /// directory, which is made first where it does not exist.
    WriteArtifact { id: String, content: String },
    /// Rewrite the index document in full from the index.
    SaveIndex,
    /// The request is done; its artifact is `id`.
    Done { id: String },
    /// The request is given up.
    Abort(PipelineError),
}

/// The run of one request.
#[derive(Clone, Debug, PartialEq, Eq)]
pub struct Run {
    pub query: String,
    pub stage: Stage,
}

/// The single turn of the classification stage.
pub open spec fn classification_turn(query: Seq<char>, background: Seq<char>) -> Seq<char> {
    turn_text(classify_text(json_list_text(operation_names()), query), background)
}

/// The single turn of the generation stage.
pub open spec fn generation_turn(query: Seq<char>, context: ContextView) -> Seq<char> {
    turn_text(generate_text(query), context_json(context))
}

/// Whether `stage` and `action` give the request up with `error`.
pub open spec fn aborted(stage: Stage, action: Action, error: PipelineError) -> bool {
    stage is Failed && (action matches Action::Abort(e) && e == error)
}

/// What follows a classification reply: the generation request against the
/// context of the label it names, known to the catalog or not; or the end
/// of the request, where the catalog lacks a component of that label.
pub open spec fn after_classification(
    query: Seq<char>,
    response: ModelResponse,
    catalog: Catalog,
    stage: Stage,
    action: Action,
) -> bool {
    let label = strip_quotes(response.text());
    match action {
        Action::Invoke(m) => catalog.complete_for(label) && m.is_single_user_turn(
            generation_turn(query, catalog.context_for(label)),
        ) && (stage matches Stage::Generating { label: l } && l@ == label),
        Action::Abort(e) => stage is Failed && (e matches PipelineError::CatalogIntegrity {
            component,
        } && (catalog.archetype(label) matches Some(entry) && exists|k: int|
            #[trigger] first_missing(catalog.documents@, entry.classes@, k) && component@
                == entry.classes@[k]@)),
        _ => false,
    }
}

/// What follows a generation reply: the write of its text, as it is, under
/// the name made of `random` and the label.
pub open spec fn after_generation(
    label: Seq<char>,
    response: ModelResponse,
    random: u128,
    stage: Stage,
    action: Action,
) -> bool {
    &&& (stage matches Stage::Writing { label: l, id } && l@ == label && id@ == artifact_name(
        random as nat,
        label,
    ))
    &&& (action matches Action::WriteArtifact { id, content } && id@ == artifact_name(
        random as nat,
        label,
    ) && content@ == response.text())
}

/// One step of a run: from `run` and `event` to `next` and `action`, with
/// the index going from `before` to `after`. `random` is the number drawn
/// for the artifact's name, which only the step after a generation reply
/// uses.
pub open spec fn step_holds(
    run: Run,
    event: Event,
    catalog: Catalog,
    before: Seq<RecordView>,
    random: u128,
    next: Run,
    action: Action,
    after: Seq<RecordView>,
) -> bool {
    &&& next.query@ == run.query@
    &&& match (run.stage, event) {
        (Stage::Classifying, Event::Replied(response)) => after == before && after_classification(
            run.query@,
            response,
            catalog,
            next.stage,
            action,
        ),
        (Stage::Classifying, Event::ModelFailed) => after == before && aborted(
            next.stage,
            action,
            PipelineError::ModelInvocation,
        ),
        (Stage::Generating { label }, Event::Replied(response)) => after == before
            && after_generation(label@, response, random, next.stage, action),
        (Stage::Generating { label }, Event::ModelFailed) => after == before && aborted(
            next.stage,
            action,
            PipelineError::ModelInvocation,
        ),
        (Stage::Writing { label, id }, Event::Written) => after == before.push(
            RecordView { id: id@, query: run.query@, label: label@ },
        ) && action is SaveIndex && (next.stage matches Stage::Saving {
            label: kept,
            id: saved,
        } && kept@ == label@ && saved@ == id@),
        (Stage::Writing { label, id }, Event::WriteFailed) => after == before && aborted(
            next.stage,
            action,
            PipelineError::Persistence,
        ),
        (Stage::Saving { label, id }, Event::Written) => after == before
            && (next.stage matches Stage::Finished { label: kept, id: done } && kept@ == label@
            && done@ == id@) && (action matches Action::Done { id: done } && done@ == id@),
        (Stage::Saving { label, id }, Event::WriteFailed) => after == before && aborted(
            next.stage,
            action,
            PipelineError::Persistence,
        ),
        _ => after == before && aborted(next.stage, action, PipelineError::UnexpectedEvent),
    }
}

/// Starts the run of `query`: the classification request goes out first,
/// whatever the request and the background are.
pub fn begin(query: &str, background: &str) -> (r: (Run, Action))
    ensures
        r.0.query@ == query@,
        r.0.stage is Classifying,
        r.1 matches Action::Invoke(m) && m.is_single_user_turn(
            classification_turn(query@, background@),
        ),
{
    match classification_request(query, background) {
        Ok(m) => (Run { query: String::from_str(query), stage: Stage::Classifying }, Action::Invoke(m)),
        Err(e) => (Run { query: String::from_str(query), stage: Stage::Failed }, Action::Abort(e)),
    }
}

/// Decides what follows a classification reply. A label that the catalog
/// does not know is no failure: generation goes on with the empty context.
pub fn on_classified(query: &str, response: &ModelResponse, catalog: &Catalog) -> (r: (
    Stage,
    Action,
))
    ensures
        after_classification(query@, *response, *catalog, r.0, r.1),
{
    let label: String = classify(response);
    match catalog.assemble(label.as_str()) {
        Err(e) => (
            Stage::Failed,
            Action::Abort(PipelineError::CatalogIntegrity { component: e.component }),
        ),
        Ok(context) => (
            Stage::Generating { label },
            Action::Invoke(generation_request(query, &context)),
        ),
    }
}

/// Decides what follows a generation reply: its text is written under a
/// name made of `random` and the label. A reply without text gives an
/// empty artifact, which is written all the same.
pub fn on_generated(label: String, response: &ModelResponse, random: u128) -> (r: (Stage, Action))
    ensures
        after_generation(label@, *response, random, r.0, r.1),
{
    let id: String = artifact_id(random, label.as_str());
    let content: String = generated_artifact(response);
    let name: String = id.clone();
    (Stage::Writing { label, id }, Action::WriteArtifact { id: name, content })
}

/// Takes one step of a run with `random` as the number to name an artifact
/// by. The index changes in one case only: the artifact has been written,
/// and its record goes behind all earlier ones.
pub fn advance_with(
    run: Run,
    event: Event,
    catalog: &Catalog,
    index: &mut GenerationIndex,
    random: u128,
) -> (r: (Run, Action))
    ensures
        step_holds(run, event, *catalog, old(index)@, random, r.0, r.1, final(index)@),
{
    let Run { query, stage } = run;
    match (stage, event) {
        (Stage::Classifying, Event::Replied(response)) => {
            let (next, action) = on_classified(query.as_str(), &response, catalog);
            (Run { query, stage: next }, action)
        },
        (Stage::Classifying, Event::ModelFailed) => (
            Run { query, stage: Stage::Failed },
            Action::Abort(PipelineError::ModelInvocation),
        ),
        (Stage::Generating { label }, Event::Replied(response)) => {
            let (next, action) = on_generated(label, &response, random);
            (Run { query, stage: next }, action)
        },
        (Stage::Generating { label }, Event::ModelFailed) => (
            Run { query, stage: Stage::Failed },
            Action::Abort(PipelineError::ModelInvocation),
        ),
        (Stage::Writing { label, id }, Event::Written) => {
            let recorded = persist(
                index,
                id.as_str(),
                query.as_str(),
                label.as_str(),
                WriteOutcome::Written,
            );
            match recorded {
                Ok(saved) => (
                    Run { query, stage: Stage::Saving { label, id: saved } },
                    Action::SaveIndex,
                ),
                Err(e) => (Run { query, stage: Stage::Failed }, Action::Abort(e)),
            }
        },
        (Stage::Writing { label, id }, Event::WriteFailed) => {
            let recorded = persist(
                index,
                id.as_str(),
                query.as_str(),
                label.as_str(),
                WriteOutcome::Failed,
            );
            match recorded {
                Ok(saved) => (
                    Run { query, stage: Stage::Saving { label, id: saved } },
                    Action::SaveIndex,
                ),
                Err(e) => (Run { query, stage: Stage::Failed }, Action::Abort(e)),
            }
        },
        (Stage::Saving { label, id }, Event::Written) => {
            let done: String = id.clone();
            (Run { query, stage: Stage::Finished { label, id } }, Action::Done { id: done })
        },
        (Stage::Saving { label, id }, Event::WriteFailed) => (
            Run { query, stage: Stage::Failed },
            Action::Abort(PipelineError::Persistence),
        ),
        _ => (Run { query, stage: Stage::Failed }, Action::Abort(PipelineError::UnexpectedEvent)),
    }
}

/// Whether the step from `stage` on `event` names a new artifact.
fn names_artifact(stage: &Stage, event: &Event) -> (r: bool)
    ensures
        r == (*stage is Generating && *event is Replied),
{
    match stage {
        Stage::Generating { label } => match event {
            Event::Replied(response) => true,
            _ => false,
        },
        _ => false,
    }
}

/// Takes one step of a run. The number that names a new artifact is drawn
/// here, at random and without a look at the names already given, and only
/// on the step that names one; so the step is stated for some number.
pub fn advance(run: Run, event: Event, catalog: &Catalog, index: &mut GenerationIndex) -> (r: (
    Run,
    Action,
))
    ensures
        exists|random: u128|
            step_holds(run, event, *catalog, old(index)@, random, r.0, r.1, final(index)@),
{
    let random: u128 = if names_artifact(&run.stage, &event) {
        draw_number()
    } else {
        0
    };
    advance_with(run, event, catalog, index, random)
}

/// A step that gives the request up leaves the index as it was.
pub proof fn lemma_failure_keeps_index(
    run: Run,
    event: Event,
    catalog: Catalog,
    before: Seq<RecordView>,
    random: u128,
    next: Run,
    action: Action,
    after: Seq<RecordView>,
)
    requires
        step_holds(run, event, catalog, before, random, next, action, after),
        next.stage is Failed,
    ensures
        after == before,
{
}

/// A step never drops or changes a record: the index after it is the index
/// before it, or that index with one record behind it, which holds the
/// request of the run.
pub proof fn lemma_step_appends_at_most_one(
    run: Run,
    event: Event,
    catalog: Catalog,
    before: Seq<RecordView>,
    random: u128,
    next: Run,
    action: Action,
    after: Seq<RecordView>,
)
    requires
        step_holds(run, event, catalog, before, random, next, action, after),
    ensures
        after == before || (after.len() == before.len() + 1 && after.drop_last() == before
            && after.last().query == run.query@ && run.stage is Writing && event is Written),
{
    if after != before {
        assert(after.drop_last() =~= before);
    }
}

/// A run at one moment, with the index as it then is.
pub struct Snapshot {
    pub run: Run,
    pub index: Seq<RecordView>,
}

/// Whether one step of a run leads from `a` to `b`, whatever was reported,
/// drawn and asked for.
pub open spec fn follows(catalog: Catalog, a: Snapshot, b: Snapshot) -> bool {
    exists|event: Event, random: u128, action: Action|
        step_holds(a.run, event, catalog, a.index, random, b.run, action, b.index)
}

/// Whether `states` are the moments of one run from its start, each one
/// step after the one before.
pub open spec fn is_trace(catalog: Catalog, states: Seq<Snapshot>) -> bool {
    &&& states.len() > 0
    &&& states[0].run.stage is Classifying
    &&& forall|k: int|
        0 <= k < states.len() - 1 ==> follows(catalog, #[trigger] states[k], states[k + 1])
}

/// What a run that began at `first` has done to the index by `now`.
///
/// Up to the write of the artifact: nothing. From then on: one record
/// behind the earlier ones, with the name and label of that artifact and
/// the request of the run. A run that was given up has done the one or the
/// other: the second where it was given up after its record went in, be it
/// that the rewrite of the index document failed or that an event came
/// which the stage did not await.
pub open spec fn run_effect(first: Snapshot, now: Snapshot) -> bool {
    &&& now.run.query@ == first.run.query@
    &&& match now.run.stage {
        Stage::Classifying => now.index == first.index,
        Stage::Generating { label } => now.index == first.index,
        Stage::Writing { label, id } => now.index == first.index,
        Stage::Saving { label, id } => now.index == first.index.push(
            RecordView { id: id@, query: first.run.query@, label: label@ },
        ),
        Stage::Finished { label, id } => now.index == first.index.push(
            RecordView { id: id@, query: first.run.query@, label: label@ },
        ),
        Stage::Failed => now.index == first.index || (now.index.len() == first.index.len() + 1
            && now.index.drop_last() == first.index && now.index.last().query
            == first.run.query@),
    }
}

/// A run adds one record, and only once its artifact is written: at every
/// moment of a run the index is what `run_effect` says. So a finished run
/// has put exactly one record behind those that were there, and no run
/// drops or changes a record.
pub proof fn lemma_run_adds_one_record(catalog: Catalog, states: Seq<Snapshot>, k: int)
    requires
        is_trace(catalog, states),
        0 <= k < states.len(),
    ensures
        run_effect(states[0], states[k]),
    decreases k,
{
    if k > 0 {
        lemma_run_adds_one_record(catalog, states, k - 1);
        let a = states[k - 1];
        let b = states[k];
        assert(follows(catalog, a, b));
        if a.run.stage is Saving || a.run.stage is Finished {
            assert(a.index.drop_last() =~= states[0].index);
        }
    }
}

/// Whether `runs` are the runs of a batch over `queries`: the request at
/// each place is run from its start on the index that the run before it
/// left, and a run is followed by another only where it finished.
pub open spec fn is_batch(
    catalog: Catalog,
    queries: Seq<Seq<char>>,
    runs: Seq<Seq<Snapshot>>,
) -> bool {
    &&& runs.len() <= queries.len()
    &&& forall|j: int|
        0 <= j < runs.len() ==> is_trace(catalog, #[trigger] runs[j]) && runs[j][0].run.query@
            == queries[j]
    &&& forall|j: int|
        0 <= j < runs.len() - 1 ==> (#[trigger] runs[j]).last().run.stage is Finished && runs[j
            + 1][0].index == runs[j].last().index
}

/// A batch records its requests in their order: when the run at place `j`
/// starts, the index holds what it held before the batch and, behind that,
/// one record for each of the `j` requests before, in the order of the
/// requests. So a batch that is given up at some request leaves exactly
/// the records of the requests before it, and none of those after it.
pub proof fn lemma_batch_records_in_order(
    catalog: Catalog,
    queries: Seq<Seq<char>>,
    runs: Seq<Seq<Snapshot>>,
    j: int,
)
    requires
        is_batch(catalog, queries, runs),
        0 <= j < runs.len(),
    ensures
        runs[j][0].index.len() == runs[0][0].index.len() + j,
        runs[j][0].index.subrange(0, runs[0][0].index.len() as int) == runs[0][0].index,
        forall|i: int|
            0 <= i < j ==> (#[trigger] runs[j][0].index[runs[0][0].index.len() + i]).query
                == queries[i],
    decreases j,
{
    let start = runs[0][0].index;
    if j == 0 {
        assert(start.subrange(0, start.len() as int) =~= start);
    } else {
        lemma_batch_records_in_order(catalog, queries, runs, j - 1);
        let before = runs[j - 1];
        assert(is_trace(catalog, before));
        lemma_run_adds_one_record(catalog, before, before.len() - 1);
        assert(before.last().run.stage is Finished);
        let now = runs[j][0].index;
        assert(now == before.last().index);
        assert(now.drop_last() =~= before[0].index);
        assert(now.subrange(0, start.len() as int) =~= before[0].index.subrange(
            0,
            start.len() as int,
        ));
        assert forall|i: int| 0 <= i < j implies (#[trigger] now[start.len() + i]).query
            == queries[i] by {
            if i < j - 1 {
                assert(now[start.len() + i] == before[0].index[start.len() + i]);
            }
        }
    }
}

/// A batch of requests, run one after the other in the order given. The
/// first request that fails ends the batch: none is run after it.
#[derive(Clone, Debug, PartialEq, Eq)]
pub struct Batch {
    pub queries: Vec<String>,
    pub position: usize,
    pub halted: bool,
}

impl Batch {
    /// Whether a request is left to run.
    pub open spec fn has_next(&self) -> bool {
        !self.halted && self.position < self.queries@.len()
    }

    /// A batch of `queries` of which none has run yet.
    pub fn new(queries: Vec<String>) -> (r: Batch)
        ensures
            r.queries == queries,
            r.position == 0,
            !r.halted,
    {
        Batch { queries, position: 0, halted: false }
    }

    /// The request to run next, or `None` where the batch is through or
    /// was ended by a failure.
    pub fn next_query(&self) -> (r: Option<String>)
        ensures
            match r {
                Some(q) => self.has_next() && q@ == self.queries@[self.position as int]@,
                None => !self.has_next(),
            },
    {
        if !self.halted && self.position < self.queries.len() {
            Some(self.queries[self.position].clone())
        } else {
            None
        }
    }

    /// Takes note of how the run of the current request ended: a finished
    /// run moves the batch on by one request, a failed one ends it, and a
    /// run still under way changes nothing.
    pub fn settle(&mut self, stage: &Stage)
        ensures
            final(self).queries == old(self).queries,
            match *stage {
                Stage::Finished { label, id } => {
                    &&& final(self).halted == old(self).halted
                    &&& final(self).position == if old(self).has_next() {
                        old(self).position + 1
                    } else {
                        old(self).position as int
                    }
                },
                Stage::Failed => {
                    &&& final(self).halted
                    &&& final(self).position == old(self).position
                },
                _ => {
                    &&& final(self).halted == old(self).halted
                    &&& final(self).position == old(self).position
                },
            },
            !old(self).has_next() ==> !final(self).has_next(),
    {
        match stage {
            Stage::Finished { label, id } => {
                if !self.halted && self.position < self.queries.len() {
                    self.position = self.position + 1;
                }
            },
            Stage::Failed => {
                self.halted = true;
            },
            _ => {},
        }
    }
}

} // verus!
