//! The pipeline controller as a state machine over mathematical values:
//! which state and which action follow from a state and an event.
//!
//! A run goes through fetch, transform, process, publish and signal, one
//! step at a time. A failure before any item is processed ends the run as
//! failed; a failure to publish one item, or to deliver the signal, is noted
//! and the run goes on.

use crate::archive::archive_decoding;
use crate::archive::work_items_of;
use crate::archive::WorkItemView;
use crate::error::DecodeFailure;
use crate::error::PipelineError;
use crate::keys::archive_name_of;
use crate::keys::file_name_of;
use crate::keys::store_identifier_of;
use crate::keys::temp_path_of;
use crate::outcome::initial_result;
use crate::outcome::RunResultView;
use crate::protocol::ActionView;
use crate::protocol::EventView;
use crate::protocol::IngestEventView;
use crate::protocol::PipelineKindView;
use crate::protocol::UploadView;
use crate::records::records_failure;
use crate::signal::task_token_report_of;
use crate::signal::workflow_trigger_of;
use crate::signal::CompletionSignalView;
use vstd::prelude::*;

verus! {

/// The least number of seconds that the simulated processing takes.
pub const MIN_DELAY_SECS: u64 = 4;

/// The number of seconds that the simulated processing stays under.
pub const DELAY_LIMIT_SECS: u64 = 20;

/// Where a run stands.
#[derive(Clone, Copy, Debug, PartialEq, Eq)]
pub enum Stage {
    /// Nothing has happened yet.
    Created,
    /// The blob is being fetched.
    Fetching,
    /// The blob is being decoded.
    Decoding,
    /// The records are being aggregated.
    Processing,
    /// The length of the simulated processing is being chosen.
    Delaying,
    /// The simulated processing is under way.
    Pausing,
    /// The items are being written under the extraction root.
    Materializing,
    /// The item at the controller's cursor is being published.
    Publishing,
    /// The completion signal is being delivered.
    Signaling,
    /// The run is over.
    Finished,
}

/// Whether the transform step of a run is behind it.
pub open spec fn transformed(stage: Stage) -> bool {
    !(stage is Created || stage is Fetching || stage is Decoding)
}

/// The mathematical model of a controller.
pub struct ControllerView {
    /// Which pipeline this is.
    pub kind: PipelineKindView,
    /// The event that triggered the run.
    pub event: IngestEventView,
    /// Where the run stands.
    pub stage: Stage,
    /// The outcome so far.
    pub result: RunResultView,
    /// The name derived from the object key: the store identifier of a
    /// tracked aggregate run, the archive name of an extract run.
    pub label: Seq<char>,
    /// The items to publish, in decode order.
    pub uploads: Seq<UploadView>,
    /// How many items have been handed out for publishing and answered.
    pub next: nat,
    /// How many of them could not be published.
    pub failed: nat,
}

/// What the controller keeps of a work item.
pub open spec fn upload_of(item: WorkItemView) -> UploadView {
    UploadView { local_path: item.local_path, destination_key: item.destination_key }
}

/// What the controller keeps of each of `items`.
pub open spec fn uploads_of(items: Seq<WorkItemView>) -> Seq<UploadView> {
    Seq::new(items.len(), |i: int| upload_of(items[i]))
}

/// The label and the local path of a run on `event`, or `None` where the
/// event is invalid: its key is empty, or does not yield the names that the
/// pipeline needs. The blob is kept under its file name, so that it lies in
/// the temporary directory whatever the key holds.
pub open spec fn start_of(kind: PipelineKindView, event: IngestEventView) -> Option<
    (Seq<char>, Seq<char>),
> {
    if event.object_key.len() == 0 {
        None
    } else {
        match file_name_of(event.object_key) {
            None => None,
            Some(file) => {
                let label = match kind {
                    PipelineKindView::Aggregate { token } => if token.len() == 0 {
                        Some(Seq::empty())
                    } else {
                        store_identifier_of(file)
                    },
                    PipelineKindView::Extract { target_id } => archive_name_of(event.object_key),
                };
                match label {
                    Some(label) => Some((label, temp_path_of(file))),
                    None => None,
                }
            },
        }
    }
}

impl ControllerView {
    /// The controller of a run that has not begun.
    pub open spec fn initial(kind: PipelineKindView, event: IngestEventView) -> ControllerView {
        ControllerView {
            kind,
            event,
            stage: Stage::Created,
            result: initial_result(),
            label: Seq::empty(),
            uploads: Seq::empty(),
            next: 0,
            failed: 0,
        }
    }

    /// What holds of every controller: the cursor is within the items, no
    /// more items failed than were answered, a run that is not over has not
    /// failed, no item is counted before the transform step, an extract run
    /// counts exactly the items it is to publish, and each pipeline stays
    /// within its own stages.
    pub open spec fn wf(self) -> bool {
        &&& self.failed <= self.next <= self.uploads.len()
        &&& self.stage is Publishing ==> self.next < self.uploads.len()
        &&& self.stage !is Finished ==> self.result.status is Success
        &&& !transformed(self.stage) ==> self.result.item_count == 0
        &&& self.kind is Extract ==> {
            &&& self.result.item_count == self.uploads.len()
            &&& !(self.stage is Processing || self.stage is Delaying || self.stage is Pausing)
        }
        &&& self.kind is Aggregate ==> {
            &&& self.uploads.len() == 0
            &&& !(self.stage is Materializing || self.stage is Publishing)
        }
    }

    /// The completion signal of a run with the outcome `result`, or `None`
    /// for an untracked run.
    pub open spec fn signal_of(self, result: RunResultView) -> Option<CompletionSignalView> {
        match self.kind {
            PipelineKindView::Aggregate { token } => task_token_report_of(
                token,
                self.label,
                result.elapsed_secs,
                result.item_count,
                result.derived_metric,
            ),
            PipelineKindView::Extract { target_id } => Some(
                workflow_trigger_of(target_id, self.event.source_location, self.label),
            ),
        }
    }

    /// The run ends with the outcome `result`.
    pub open spec fn finish_of(self, result: RunResultView) -> (ControllerView, ActionView) {
        (ControllerView { stage: Stage::Finished, result, ..self }, ActionView::Finish { result })
    }

    /// The run ends as failed on `error`.
    pub open spec fn abort_of(self, result: RunResultView, error: PipelineError) -> (
        ControllerView,
        ActionView,
    ) {
        self.finish_of(result.noting(error).failed())
    }

    /// Every item is dealt with: the signal is sent where there is one, and
    /// the run ends where there is none.
    pub open spec fn conclude_of(self, result: RunResultView) -> (ControllerView, ActionView) {
        match self.signal_of(result) {
            Some(signal) => (
                ControllerView { stage: Stage::Signaling, result, ..self },
                ActionView::Signal { signal },
            ),
            None => self.finish_of(result),
        }
    }

    /// The item at the cursor is published next. Past the last item, the run
    /// has failed if it had items and none was published, and is concluded
    /// otherwise.
    pub open spec fn publish_of(self, result: RunResultView) -> (ControllerView, ActionView) {
        if self.next < self.uploads.len() {
            (
                ControllerView { stage: Stage::Publishing, result, ..self },
                ActionView::Publish {
                    location: self.event.source_location,
                    local_path: self.uploads[self.next as int].local_path,
                    destination_key: self.uploads[self.next as int].destination_key,
                },
            )
        } else if self.uploads.len() > 0 && self.failed == self.uploads.len() {
            self.finish_of(result.failed())
        } else {
            self.conclude_of(result)
        }
    }

    /// The state and the action that follow when `event` is reported `now`
    /// seconds into the run. An event that the stage does not expect changes
    /// nothing.
    #[verifier::opaque]
    pub open spec fn step_of(self, event: EventView, now: nat) -> (ControllerView, ActionView) {
        let result = self.result.at(now);
        match (self.stage, event) {
            (Stage::Created, EventView::Started) => match start_of(self.kind, self.event) {
                None => self.abort_of(result, PipelineError::InvalidEvent),
                Some((label, local_path)) => (
                    ControllerView { stage: Stage::Fetching, result, label, ..self },
                    ActionView::Fetch {
                        location: self.event.source_location,
                        key: self.event.object_key,
                        local_path,
                    },
                ),
            },
            (Stage::Fetching, EventView::FetchFailed { cause }) => self.abort_of(
                result,
                PipelineError::Fetch(cause),
            ),
            (Stage::Fetching, EventView::Fetched { blob }) => (
                ControllerView { stage: Stage::Decoding, result, ..self },
                if self.kind is Aggregate {
                    ActionView::DecodeRecords { blob }
                } else {
                    ActionView::DecodeArchive { blob }
                },
            ),
            (Stage::Decoding, EventView::RecordsRejected) if self.kind is Aggregate => {
                self.abort_of(result, PipelineError::Decode(DecodeFailure::MalformedRecords))
            },
            (Stage::Decoding, EventView::RecordsDecoded { records }) if self.kind
                is Aggregate => match records_failure(records) {
                Some(failure) => self.abort_of(result, PipelineError::Decode(failure)),
                None => (
                    ControllerView {
                        stage: Stage::Processing,
                        result: result.counting(records.len()),
                        ..self
                    },
                    ActionView::Aggregate { records },
                ),
            },
            (Stage::Decoding, EventView::ArchiveRejected { failure }) if self.kind
                is Extract => self.abort_of(result, PipelineError::Decode(failure)),
            (Stage::Decoding, EventView::ArchiveDecoded { entries }) if self.kind
                is Extract => match work_items_of(entries, self.label) {
                Err(failure) => self.abort_of(result, PipelineError::Decode(failure)),
                Ok(items) => (
                    ControllerView {
                        stage: Stage::Materializing,
                        result: result.counting(items.len()),
                        uploads: uploads_of(items),
                        next: 0,
                        failed: 0,
                        ..self
                    },
                    ActionView::Materialize { items },
                ),
            },
            (Stage::Processing, EventView::Aggregated { total }) => (
                ControllerView { stage: Stage::Delaying, result: result.measuring(total), ..self },
                ActionView::ChooseDelay,
            ),
            (Stage::Delaying, EventView::DelayChosen { seconds }) if MIN_DELAY_SECS <= seconds
                < DELAY_LIMIT_SECS => (
                ControllerView { stage: Stage::Pausing, result, ..self },
                ActionView::Pause { seconds },
            ),
            (Stage::Pausing, EventView::Resumed) => self.conclude_of(result),
            (Stage::Materializing, EventView::MaterializeFailed) => self.abort_of(
                result,
                PipelineError::Io,
            ),
            (Stage::Materializing, EventView::Materialized) => self.publish_of(result),
            (Stage::Publishing, EventView::Published) => ControllerView {
                next: self.next + 1,
                ..self
            }.publish_of(result),
            (Stage::Publishing, EventView::PublishFailed) => ControllerView {
                next: self.next + 1,
                failed: self.failed + 1,
                ..self
            }.publish_of(result.noting(PipelineError::Publish { item: self.next as usize })),
            (Stage::Signaling, EventView::Signaled) => self.finish_of(result),
            (Stage::Signaling, EventView::SignalFailed) => self.finish_of(
                result.noting(PipelineError::Signal),
            ),
            _ => (self, ActionView::Ignore),
        }
    }
}

/// The event that reports what decoding `blob` as an archive gave.
pub open spec fn decoded_event_of(blob: Seq<u8>) -> EventView {
    match archive_decoding(blob) {
        Ok(entries) => EventView::ArchiveDecoded { entries },
        Err(failure) => EventView::ArchiveRejected { failure },
    }
}

/// Whether `outcome` may follow from `state` and `event` once the
/// controller has done by itself what needs no driver: the archive is
/// decoded at once, and the delay is chosen, as any number of seconds within
/// its bounds.
pub open spec fn advance_allows(
    state: ControllerView,
    event: EventView,
    now: nat,
    outcome: (ControllerView, ActionView),
) -> bool {
    let first = state.step_of(event, now);
    match first.1 {
        ActionView::DecodeArchive { blob } => outcome == first.0.step_of(
            decoded_event_of(blob),
            now,
        ),
        ActionView::ChooseDelay => exists|seconds: u64|
            MIN_DELAY_SECS <= seconds < DELAY_LIMIT_SECS && outcome == #[trigger] first.0.step_of(
                EventView::DelayChosen { seconds },
                now,
            ),
        _ => outcome == first,
    }
}

} // verus!
