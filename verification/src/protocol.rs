//! What a run's controller and its driver say to each other: the driver
//! reports events, the controller answers each with the next action.

use crate::archive::ArchiveEntry;
use crate::archive::ArchiveEntryView;
use crate::archive::WorkItem;
use crate::archive::WorkItemView;
use crate::error::DecodeFailure;
use crate::error::FetchFailure;
use crate::outcome::RunResult;
use crate::outcome::RunResultView;
use crate::records::Transaction;
use crate::records::TransactionView;
use crate::signal::CompletionSignal;
use crate::signal::CompletionSignalView;
use vstd::prelude::*;

verus! {

/// One unit of work: the object that a trigger named.
#[derive(Debug, PartialEq, Eq)]
pub struct IngestEvent {
    /// The bucket, or other place of the content store, that holds the object.
    pub source_location: String,
    /// The object's key.
    pub object_key: String,
}

/// The mathematical model of an [`IngestEvent`].
pub struct IngestEventView {
    pub source_location: Seq<char>,
    pub object_key: Seq<char>,
}

impl DeepView for IngestEvent {
    type V = IngestEventView;

    open spec fn deep_view(&self) -> IngestEventView {
        IngestEventView {
            source_location: self.source_location@,
            object_key: self.object_key@,
        }
    }
}

/// The two pipelines, each with what its completion signal needs.
#[derive(Debug, PartialEq, Eq)]
pub enum PipelineKind {
    /// Decodes a record list and aggregates it; reports to the workflow
    /// step that waits on `token`, unless the token is empty.
    Aggregate { token: String },
    /// Decodes an archive and publishes its members; then starts the
    /// workflow `target_id`.
    Extract { target_id: String },
}

/// The mathematical model of a [`PipelineKind`].
pub enum PipelineKindView {
    Aggregate { token: Seq<char> },
    Extract { target_id: Seq<char> },
}

impl DeepView for PipelineKind {
    type V = PipelineKindView;

    open spec fn deep_view(&self) -> PipelineKindView {
        match self {
            PipelineKind::Aggregate { token } => PipelineKindView::Aggregate { token: token@ },
            PipelineKind::Extract { target_id } => PipelineKindView::Extract {
                target_id: target_id@,
            },
        }
    }
}

/// What the controller keeps of a work item until it is published.
#[derive(Debug, PartialEq, Eq)]
pub struct Upload {
    /// Where the item was materialized.
    pub local_path: String,
    /// The key to publish it under.
    pub destination_key: String,
}

/// The mathematical model of an [`Upload`].
pub struct UploadView {
    pub local_path: Seq<char>,
    pub destination_key: Seq<char>,
}

impl DeepView for Upload {
    type V = UploadView;

    open spec fn deep_view(&self) -> UploadView {
        UploadView { local_path: self.local_path@, destination_key: self.destination_key@ }
    }
}

/// What happened since the controller's last action.
#[derive(Debug, PartialEq, Eq)]
pub enum Event {
    /// The run begins.
    Started,
    /// The content store produced the blob.
    Fetched { blob: Vec<u8> },
    /// The content store could not produce the blob.
    FetchFailed { cause: FetchFailure },
    /// The blob held this list of records.
    RecordsDecoded { records: Vec<Transaction> },
    /// The blob is no well-formed list of records.
    RecordsRejected,
    /// The blob held an archive with these members.
    ArchiveDecoded { entries: Vec<ArchiveEntry> },
    /// The blob is no readable archive.
    ArchiveRejected { failure: DecodeFailure },
    /// The records were aggregated to `total`, given as decimal text.
    Aggregated { total: String },
    /// The simulated processing is to take `seconds`.
    DelayChosen { seconds: u64 },
    /// The simulated processing is over.
    Resumed,
    /// Every file was written under the extraction root.
    Materialized,
    /// The extraction root could not be created or written.
    MaterializeFailed,
    /// The item asked for was published, and its file removed.
    Published,
    /// The item asked for could not be published.
    PublishFailed,
    /// The completion signal was delivered.
    Signaled,
    /// The completion signal could not be delivered.
    SignalFailed,
}

/// The mathematical model of an [`Event`].
pub enum EventView {
    Started,
    Fetched { blob: Seq<u8> },
    FetchFailed { cause: FetchFailure },
    RecordsDecoded { records: Seq<TransactionView> },
    RecordsRejected,
    ArchiveDecoded { entries: Seq<ArchiveEntryView> },
    ArchiveRejected { failure: DecodeFailure },
    Aggregated { total: Seq<char> },
    DelayChosen { seconds: u64 },
    Resumed,
    Materialized,
    MaterializeFailed,
    Published,
    PublishFailed,
    Signaled,
    SignalFailed,
}

impl DeepView for Event {
    type V = EventView;

    open spec fn deep_view(&self) -> EventView {
        match self {
            Event::Started => EventView::Started,
            Event::Fetched { blob } => EventView::Fetched { blob: blob@ },
            Event::FetchFailed { cause } => EventView::FetchFailed { cause: *cause },
            Event::RecordsDecoded { records } => EventView::RecordsDecoded {
                records: records.deep_view(),
            },
            Event::RecordsRejected => EventView::RecordsRejected,
            Event::ArchiveDecoded { entries } => EventView::ArchiveDecoded {
                entries: entries.deep_view(),
            },
            Event::ArchiveRejected { failure } => EventView::ArchiveRejected { failure: *failure },
            Event::Aggregated { total } => EventView::Aggregated { total: total@ },
            Event::DelayChosen { seconds } => EventView::DelayChosen { seconds: *seconds },
            Event::Resumed => EventView::Resumed,
            Event::Materialized => EventView::Materialized,
            Event::MaterializeFailed => EventView::MaterializeFailed,
            Event::Published => EventView::Published,
            Event::PublishFailed => EventView::PublishFailed,
            Event::Signaled => EventView::Signaled,
            Event::SignalFailed => EventView::SignalFailed,
        }
    }
}

/// What the driver is to do next.
#[derive(Debug, PartialEq, Eq)]
pub enum Action {
    /// Fetch the object `key` of `location`; keep it at `local_path` while
    /// the run works on it.
    Fetch { location: String, key: String, local_path: String },
    /// Decode `blob` as a list of records.
    DecodeRecords { blob: Vec<u8> },
    /// Decode `blob` as an archive.
    DecodeArchive { blob: Vec<u8> },
    /// Aggregate the records.
    Aggregate { records: Vec<Transaction> },
    /// Choose how long the simulated processing takes.
    ChooseDelay,
    /// Wait for `seconds`.
    Pause { seconds: u64 },
    /// Write every item's content to its local path, creating the
    /// directories on the way.
    Materialize { items: Vec<WorkItem> },
    /// Publish the file at `local_path` to `location` under
    /// `destination_key`, and remove the file whatever comes of it.
    Publish { location: String, local_path: String, destination_key: String },
    /// Deliver the completion signal.
    Signal { signal: CompletionSignal },
    /// The run is over; this is its outcome.
    Finish { result: RunResult },
    /// The event was not expected; nothing changed.
    Ignore,
}

/// The mathematical model of an [`Action`].
pub enum ActionView {
    Fetch { location: Seq<char>, key: Seq<char>, local_path: Seq<char> },
    DecodeRecords { blob: Seq<u8> },
    DecodeArchive { blob: Seq<u8> },
    Aggregate { records: Seq<TransactionView> },
    ChooseDelay,
    Pause { seconds: u64 },
    Materialize { items: Seq<WorkItemView> },
    Publish { location: Seq<char>, local_path: Seq<char>, destination_key: Seq<char> },
    Signal { signal: CompletionSignalView },
    Finish { result: RunResultView },
    Ignore,
}

impl DeepView for Action {
    type V = ActionView;

    open spec fn deep_view(&self) -> ActionView {
        match self {
            Action::Fetch { location, key, local_path } => ActionView::Fetch {
                location: location@,
                key: key@,
                local_path: local_path@,
            },
            Action::DecodeRecords { blob } => ActionView::DecodeRecords { blob: blob@ },
            Action::DecodeArchive { blob } => ActionView::DecodeArchive { blob: blob@ },
            Action::Aggregate { records } => ActionView::Aggregate { records: records.deep_view() },
            Action::ChooseDelay => ActionView::ChooseDelay,
            Action::Pause { seconds } => ActionView::Pause { seconds: *seconds },
            Action::Materialize { items } => ActionView::Materialize { items: items.deep_view() },
            Action::Publish { location, local_path, destination_key } => ActionView::Publish {
                location: location@,
                local_path: local_path@,
                destination_key: destination_key@,
            },
            Action::Signal { signal } => ActionView::Signal { signal: signal.deep_view() },
            Action::Finish { result } => ActionView::Finish { result: result.deep_view() },
            Action::Ignore => ActionView::Ignore,
        }
    }
}

} // verus!
