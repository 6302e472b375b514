//! The pipeline controller: sequences the steps of one run, and keeps its
//! outcome.

use crate::archive::decode_archive;
use crate::archive::plan_extraction;
use crate::archive::ArchiveEntry;
use crate::archive::WorkItem;
use crate::error::DecodeFailure;
use crate::error::PipelineError;
use crate::keys::archive_name;
use crate::keys::file_name;
use crate::keys::store_identifier;
use crate::keys::temp_path;
use crate::laws::lemma_own_work_settles;
use crate::machine::advance_allows;
use crate::machine::decoded_event_of;
use crate::machine::start_of;
use crate::machine::upload_of;
use crate::machine::uploads_of;
use crate::machine::ControllerView;
use crate::machine::Stage;
use crate::machine::DELAY_LIMIT_SECS;
use crate::machine::MIN_DELAY_SECS;
use crate::outcome::RunResult;
use crate::outcome::RunResultView;
use crate::protocol::Action;
use crate::protocol::ActionView;
use crate::protocol::Event;
use crate::protocol::EventView;
use crate::protocol::IngestEvent;
use crate::protocol::PipelineKind;
use crate::protocol::Upload;
use crate::records::check_records;
use crate::records::Transaction;
use crate::signal::task_token_report;
use crate::signal::workflow_trigger;
use crate::signal::CompletionSignal;
use rand::Rng;
use vstd::prelude::*;
use vstd::string::*;

verus! {

/// `rand::Rng::gen_range` on the thread's generator, for the half-open range
/// from `low` to `high`: the number drawn lies within the range. (The
/// generator gives up where the system cannot seed it, which no argument
/// decides.)
#[verifier::external_body]
fn random_between(low: u64, high: u64) -> (drawn: u64)
    requires
        low < high,
    ensures
        low <= drawn < high,
{
    rand::thread_rng().gen_range(low..high)
}

/// The controller of one pipeline run.
pub struct Controller {
    kind: PipelineKind,
    event: IngestEvent,
    stage: Stage,
    result: RunResult,
    label: String,
    uploads: Vec<Upload>,
    next: usize,
    failed: usize,
}

impl DeepView for Controller {
    type V = ControllerView;

    closed spec fn deep_view(&self) -> ControllerView {
        ControllerView {
            kind: self.kind.deep_view(),
            event: self.event.deep_view(),
            stage: self.stage,
            result: self.result.deep_view(),
            label: self.label@,
            uploads: self.uploads.deep_view(),
            next: self.next as nat,
            failed: self.failed as nat,
        }
    }
}

/// What a controller holds besides its stage and its outcome.
struct Parts {
    kind: PipelineKind,
    event: IngestEvent,
    label: String,
    uploads: Vec<Upload>,
    next: usize,
    failed: usize,
}

impl Parts {
    spec fn model(self, stage: Stage, result: RunResultView) -> ControllerView {
        ControllerView {
            kind: self.kind.deep_view(),
            event: self.event.deep_view(),
            stage,
            result,
            label: self.label@,
            uploads: self.uploads.deep_view(),
            next: self.next as nat,
            failed: self.failed as nat,
        }
    }

    /// The part of a controller's invariant that does not speak of its stage.
    spec fn sound(self, result: RunResultView) -> bool {
        &&& self.failed <= self.next <= self.uploads.len()
        &&& self.kind is Extract ==> result.item_count == self.uploads.len()
        &&& self.kind is Aggregate ==> self.uploads.len() == 0
    }

    /// The controller made of these parts, at `stage` and with the outcome
    /// `result`.
    fn at_stage(self, stage: Stage, result: RunResult) -> (controller: Controller)
        requires
            self.model(stage, result.deep_view()).wf(),
        ensures
            controller.deep_view() == self.model(stage, result.deep_view()),
    {
        Controller {
            kind: self.kind,
            event: self.event,
            stage,
            result,
            label: self.label,
            uploads: self.uploads,
            next: self.next,
            failed: self.failed,
        }
    }

    fn ignore(self, stage: Stage, result: RunResult) -> (next: (Controller, Action))
        requires
            self.model(stage, result.deep_view()).wf(),
        ensures
            next.0.deep_view() == self.model(stage, result.deep_view()),
            next.1.deep_view() == ActionView::Ignore,
    {
        (self.at_stage(stage, result), Action::Ignore)
    }

    fn finish(self, stage: Stage, result: RunResult) -> (next: (Controller, Action))
        requires
            self.sound(result.deep_view()),
        ensures
            (next.0.deep_view(), next.1.deep_view()) == self.model(
                stage,
                result.deep_view(),
            ).finish_of(result.deep_view()),
    {
        let report = result.duplicate();
        (self.at_stage(Stage::Finished, result), Action::Finish { result: report })
    }

    fn abort(self, stage: Stage, result: RunResult, error: PipelineError) -> (next: (
        Controller,
        Action,
    ))
        requires
            self.sound(result.deep_view()),
        ensures
            (next.0.deep_view(), next.1.deep_view()) == self.model(
                stage,
                result.deep_view(),
            ).abort_of(result.deep_view(), error),
    {
        self.finish(stage, result.noting(error).failed())
    }

    fn signal(&self, result: &RunResult) -> (signal: Option<CompletionSignal>)
        ensures
            signal.deep_view() == self.model(Stage::Created, result.deep_view()).signal_of(
                result.deep_view(),
            ),
    {
        match &self.kind {
            PipelineKind::Aggregate { token } => task_token_report(
                token.as_str(),
                self.label.as_str(),
                result.elapsed_secs,
                result.item_count,
                result.derived_metric.as_str(),
            ),
            PipelineKind::Extract { target_id } => Some(
                workflow_trigger(
                    target_id.as_str(),
                    self.event.source_location.as_str(),
                    self.label.as_str(),
                ),
            ),
        }
    }

    fn conclude(self, stage: Stage, result: RunResult) -> (next: (Controller, Action))
        requires
            self.sound(result.deep_view()),
            result.status is Success,
        ensures
            (next.0.deep_view(), next.1.deep_view()) == self.model(
                stage,
                result.deep_view(),
            ).conclude_of(result.deep_view()),
    {
        match self.signal(&result) {
            Some(signal) => (self.at_stage(Stage::Signaling, result), Action::Signal { signal }),
            None => self.finish(stage, result),
        }
    }

    fn publish(self, stage: Stage, result: RunResult) -> (next: (Controller, Action))
        requires
            self.sound(result.deep_view()),
            result.status is Success,
        ensures
            (next.0.deep_view(), next.1.deep_view()) == self.model(
                stage,
                result.deep_view(),
            ).publish_of(result.deep_view()),
    {
        if self.next < self.uploads.len() {
            let action = Action::Publish {
                location: self.event.source_location.clone(),
                local_path: self.uploads[self.next].local_path.clone(),
                destination_key: self.uploads[self.next].destination_key.clone(),
            };
            (self.at_stage(Stage::Publishing, result), action)
        } else if self.uploads.len() > 0 && self.failed == self.uploads.len() {
            self.finish(stage, result.failed())
        } else {
            self.conclude(stage, result)
        }
    }
}

/// The label and the local path of a run on `event`.
fn begin(kind: &PipelineKind, event: &IngestEvent) -> (names: Option<(String, String)>)
    ensures
        match names {
            Some((label, local_path)) => start_of(kind.deep_view(), event.deep_view()) == Some(
                (label@, local_path@),
            ),
            None => start_of(kind.deep_view(), event.deep_view()) is None,
        },
{
    let key = event.object_key.as_str();
    if key.is_empty() {
        return None;
    }
    let file = match file_name(key) {
        Some(file) => file,
        None => {
            return None;
        },
    };
    let label = match kind {
        PipelineKind::Aggregate { token } => if token.as_str().is_empty() {
            Some(String::new())
        } else {
            store_identifier(file.as_str())
        },
        PipelineKind::Extract { target_id: _ } => archive_name(key),
    };
    match label {
        Some(label) => Some((label, temp_path(file.as_str()))),
        None => None,
    }
}

/// What the controller keeps of each of `items`.
fn uploads_from(items: &Vec<WorkItem>) -> (uploads: Vec<Upload>)
    ensures
        uploads.deep_view() == uploads_of(items.deep_view()),
{
    let mut uploads: Vec<Upload> = Vec::new();
    let mut index: usize = 0;
    while index < items.len()
        invariant
            index <= items.len(),
            uploads.len() == index,
            forall|i: int|
                0 <= i < index ==> #[trigger] uploads[i].deep_view() == upload_of(
                    items[i].deep_view(),
                ),
        decreases items.len() - index,
    {
        uploads.push(
            Upload {
                local_path: items[index].local_path.clone(),
                destination_key: items[index].destination_key.clone(),
            },
        );
        index = index + 1;
    }
    uploads
}

impl Controller {
    #[verifier::type_invariant]
    spec fn inv(self) -> bool {
        self.deep_view().wf()
    }

    /// The controller of a run of the pipeline `kind` on `event`, before
    /// anything has happened.
    pub fn new(kind: PipelineKind, event: IngestEvent) -> (controller: Controller)
        ensures
            controller.deep_view() == ControllerView::initial(kind.deep_view(), event.deep_view()),
            controller.deep_view().wf(),
    {
        let result = RunResult::new();
        let uploads: Vec<Upload> = Vec::new();
        proof {
            assert(uploads.deep_view() =~= Seq::empty());
        }
        Controller {
            kind,
            event,
            stage: Stage::Created,
            result,
            label: String::new(),
            uploads,
            next: 0,
            failed: 0,
        }
    }

    /// Where the run stands.
    pub fn stage(&self) -> (stage: Stage)
        ensures
            stage == self.deep_view().stage,
    {
        self.stage
    }

    /// The outcome so far.
    pub fn result(&self) -> (result: &RunResult)
        ensures
            result.deep_view() == self.deep_view().result,
    {
        &self.result
    }

    /// Takes the event that the driver reports `now` seconds into the run,
    /// and answers with the next action.
    ///
    /// An event that the stage does not expect is answered with
    /// [`Action::Ignore`], and changes nothing.
    pub fn step(self, event: Event, now: u64) -> (next: (Controller, Action))
        ensures
            (next.0.deep_view(), next.1.deep_view()) == self.deep_view().step_of(
                event.deep_view(),
                now as nat,
            ),
            self.deep_view().wf(),
            next.0.deep_view().wf(),
    {
        proof {
            use_type_invariant(&self);
            reveal(ControllerView::step_of);
        }
        let Controller { kind, event: trigger, stage, result, label, uploads, next, failed } = self;
        let parts = Parts { kind, event: trigger, label, uploads, next, failed };
        let next = match stage {
            Stage::Created => match event {
                Event::Started => parts.on_started(result, now),
                _ => parts.ignore(stage, result),
            },
            Stage::Fetching => match event {
                Event::FetchFailed { cause } => parts.abort(
                    stage,
                    result.at(now),
                    PipelineError::Fetch(cause),
                ),
                Event::Fetched { blob } => parts.on_fetched(result, now, blob),
                _ => parts.ignore(stage, result),
            },
            Stage::Decoding => match event {
                Event::RecordsRejected => parts.on_records_rejected(result, now),
                Event::RecordsDecoded { records } => parts.on_records_decoded(result, now, records),
                Event::ArchiveRejected { failure } => {
                    parts.on_archive_rejected(result, now, failure)
                },
                Event::ArchiveDecoded { entries } => parts.on_archive_decoded(result, now, entries),
                _ => parts.ignore(stage, result),
            },
            Stage::Processing => match event {
                Event::Aggregated { total } => parts.on_aggregated(result, now, total),
                _ => parts.ignore(stage, result),
            },
            Stage::Delaying => match event {
                Event::DelayChosen { seconds } => parts.on_delay_chosen(result, now, seconds),
                _ => parts.ignore(stage, result),
            },
            Stage::Pausing => match event {
                Event::Resumed => parts.conclude(stage, result.at(now)),
                _ => parts.ignore(stage, result),
            },
            Stage::Materializing => match event {
                Event::MaterializeFailed => parts.abort(stage, result.at(now), PipelineError::Io),
                Event::Materialized => parts.publish(stage, result.at(now)),
                _ => parts.ignore(stage, result),
            },
            Stage::Publishing => match event {
                Event::Published => parts.on_published(result, now),
                Event::PublishFailed => parts.on_publish_failed(result, now),
                _ => parts.ignore(stage, result),
            },
            Stage::Signaling => match event {
                Event::Signaled => parts.finish(stage, result.at(now)),
                Event::SignalFailed => parts.finish(
                    stage,
                    result.at(now).noting(PipelineError::Signal),
                ),
                _ => parts.ignore(stage, result),
            },
            Stage::Finished => parts.ignore(stage, result),
        };
        proof {
            use_type_invariant(&next.0);
        }
        next
    }

    /// Takes an event as [`Controller::step`] does, and then does by itself
    /// what needs no driver: it decodes the archive it has fetched, and
    /// draws the length of the simulated processing. The action it answers
    /// with is one for the driver.
    pub fn advance(self, event: Event, now: u64) -> (next: (Controller, Action))
        ensures
            advance_allows(
                self.deep_view(),
                event.deep_view(),
                now as nat,
                (next.0.deep_view(), next.1.deep_view()),
            ),
            next.0.deep_view().wf(),
            !(next.1.deep_view() is DecodeArchive),
            !(next.1.deep_view() is ChooseDelay),
    {
        let ghost first = self.deep_view().step_of(event.deep_view(), now as nat);
        let (controller, action) = self.step(event, now);
        match action {
            Action::DecodeArchive { blob } => {
                let decoded = match decode_archive(blob) {
                    Ok(entries) => Event::ArchiveDecoded { entries },
                    Err(failure) => Event::ArchiveRejected { failure },
                };
                let next = controller.step(decoded, now);
                proof {
                    lemma_own_work_settles(first.0, decoded_event_of(blob@), now as nat);
                }
                next
            },
            Action::ChooseDelay => {
                let seconds = random_between(MIN_DELAY_SECS, DELAY_LIMIT_SECS);
                let next = controller.step(Event::DelayChosen { seconds }, now);
                proof {
                    lemma_own_work_settles(
                        first.0,
                        EventView::DelayChosen { seconds },
                        now as nat,
                    );
                }
                next
            },
            other => (controller, other),
        }
    }
}

impl Parts {
    fn on_started(self, result: RunResult, now: u64) -> (next: (Controller, Action))
        requires
            self.model(Stage::Created, result.deep_view()).wf(),
        ensures
            (next.0.deep_view(), next.1.deep_view()) == self.model(
                Stage::Created,
                result.deep_view(),
            ).step_of(EventView::Started, now as nat),
    {
        reveal(ControllerView::step_of);
        let result = result.at(now);
        match begin(&self.kind, &self.event) {
            None => self.abort(Stage::Created, result, PipelineError::InvalidEvent),
            Some((label, local_path)) => {
                let action = Action::Fetch {
                    location: self.event.source_location.clone(),
                    key: self.event.object_key.clone(),
                    local_path,
                };
                (Parts { label, ..self }.at_stage(Stage::Fetching, result), action)
            },
        }
    }

    fn on_fetched(self, result: RunResult, now: u64, blob: Vec<u8>) -> (next: (Controller, Action))
        requires
            self.model(Stage::Fetching, result.deep_view()).wf(),
        ensures
            (next.0.deep_view(), next.1.deep_view()) == self.model(
                Stage::Fetching,
                result.deep_view(),
            ).step_of(EventView::Fetched { blob: blob@ }, now as nat),
    {
        reveal(ControllerView::step_of);
        let action = match &self.kind {
            PipelineKind::Aggregate { token: _ } => Action::DecodeRecords { blob },
            PipelineKind::Extract { target_id: _ } => Action::DecodeArchive { blob },
        };
        (self.at_stage(Stage::Decoding, result.at(now)), action)
    }

    fn on_records_rejected(self, result: RunResult, now: u64) -> (next: (Controller, Action))
        requires
            self.model(Stage::Decoding, result.deep_view()).wf(),
        ensures
            (next.0.deep_view(), next.1.deep_view()) == self.model(
                Stage::Decoding,
                result.deep_view(),
            ).step_of(EventView::RecordsRejected, now as nat),
    {
        reveal(ControllerView::step_of);
        match &self.kind {
            PipelineKind::Aggregate { token: _ } => self.abort(
                Stage::Decoding,
                result.at(now),
                PipelineError::Decode(DecodeFailure::MalformedRecords),
            ),
            PipelineKind::Extract { target_id: _ } => self.ignore(Stage::Decoding, result),
        }
    }

    fn on_records_decoded(self, result: RunResult, now: u64, records: Vec<Transaction>) -> (next: (
        Controller,
        Action,
    ))
        requires
            self.model(Stage::Decoding, result.deep_view()).wf(),
        ensures
            (next.0.deep_view(), next.1.deep_view()) == self.model(
                Stage::Decoding,
                result.deep_view(),
            ).step_of(EventView::RecordsDecoded { records: records.deep_view() }, now as nat),
    {
        reveal(ControllerView::step_of);
        match &self.kind {
            PipelineKind::Aggregate { token: _ } => match check_records(&records) {
                Err(failure) => self.abort(
                    Stage::Decoding,
                    result.at(now),
                    PipelineError::Decode(failure),
                ),
                Ok(count) => (
                    self.at_stage(Stage::Processing, result.at(now).counting(count)),
                    Action::Aggregate { records },
                ),
            },
            PipelineKind::Extract { target_id: _ } => self.ignore(Stage::Decoding, result),
        }
    }

    fn on_archive_rejected(self, result: RunResult, now: u64, failure: DecodeFailure) -> (next: (
        Controller,
        Action,
    ))
        requires
            self.model(Stage::Decoding, result.deep_view()).wf(),
        ensures
            (next.0.deep_view(), next.1.deep_view()) == self.model(
                Stage::Decoding,
                result.deep_view(),
            ).step_of(EventView::ArchiveRejected { failure }, now as nat),
    {
        reveal(ControllerView::step_of);
        match &self.kind {
            PipelineKind::Extract { target_id: _ } => self.abort(
                Stage::Decoding,
                result.at(now),
                PipelineError::Decode(failure),
            ),
            PipelineKind::Aggregate { token: _ } => self.ignore(Stage::Decoding, result),
        }
    }

    fn on_archive_decoded(self, result: RunResult, now: u64, entries: Vec<ArchiveEntry>) -> (next: (
        Controller,
        Action,
    ))
        requires
            self.model(Stage::Decoding, result.deep_view()).wf(),
        ensures
            (next.0.deep_view(), next.1.deep_view()) == self.model(
                Stage::Decoding,
                result.deep_view(),
            ).step_of(EventView::ArchiveDecoded { entries: entries.deep_view() }, now as nat),
    {
        reveal(ControllerView::step_of);
        match &self.kind {
            PipelineKind::Extract { target_id: _ } => {
                match plan_extraction(entries, self.label.as_str()) {
                    Err(failure) => self.abort(
                        Stage::Decoding,
                        result.at(now),
                        PipelineError::Decode(failure),
                    ),
                    Ok(items) => {
                        let uploads = uploads_from(&items);
                        let result = result.at(now).counting(items.len());
                        let planned = Parts { uploads, next: 0, failed: 0, ..self };
                        (
                            planned.at_stage(Stage::Materializing, result),
                            Action::Materialize { items },
                        )
                    },
                }
            },
            PipelineKind::Aggregate { token: _ } => self.ignore(Stage::Decoding, result),
        }
    }

    fn on_aggregated(self, result: RunResult, now: u64, total: String) -> (next: (
        Controller,
        Action,
    ))
        requires
            self.model(Stage::Processing, result.deep_view()).wf(),
        ensures
            (next.0.deep_view(), next.1.deep_view()) == self.model(
                Stage::Processing,
                result.deep_view(),
            ).step_of(EventView::Aggregated { total: total@ }, now as nat),
    {
        reveal(ControllerView::step_of);
        (self.at_stage(Stage::Delaying, result.at(now).measuring(total)), Action::ChooseDelay)
    }

    fn on_delay_chosen(self, result: RunResult, now: u64, seconds: u64) -> (next: (
        Controller,
        Action,
    ))
        requires
            self.model(Stage::Delaying, result.deep_view()).wf(),
        ensures
            (next.0.deep_view(), next.1.deep_view()) == self.model(
                Stage::Delaying,
                result.deep_view(),
            ).step_of(EventView::DelayChosen { seconds }, now as nat),
    {
        reveal(ControllerView::step_of);
        if MIN_DELAY_SECS <= seconds && seconds < DELAY_LIMIT_SECS {
            (self.at_stage(Stage::Pausing, result.at(now)), Action::Pause { seconds })
        } else {
            self.ignore(Stage::Delaying, result)
        }
    }

    fn on_published(self, result: RunResult, now: u64) -> (next: (Controller, Action))
        requires
            self.model(Stage::Publishing, result.deep_view()).wf(),
        ensures
            (next.0.deep_view(), next.1.deep_view()) == self.model(
                Stage::Publishing,
                result.deep_view(),
            ).step_of(EventView::Published, now as nat),
    {
        reveal(ControllerView::step_of);
        let moved = Parts { next: self.next + 1, ..self };
        moved.publish(Stage::Publishing, result.at(now))
    }

    fn on_publish_failed(self, result: RunResult, now: u64) -> (next: (Controller, Action))
        requires
            self.model(Stage::Publishing, result.deep_view()).wf(),
        ensures
            (next.0.deep_view(), next.1.deep_view()) == self.model(
                Stage::Publishing,
                result.deep_view(),
            ).step_of(EventView::PublishFailed, now as nat),
    {
        reveal(ControllerView::step_of);
        let item = self.next;
        let moved = Parts { next: self.next + 1, failed: self.failed + 1, ..self };
        moved.publish(Stage::Publishing, result.at(now).noting(PipelineError::Publish { item }))
    }
}

} // verus!
