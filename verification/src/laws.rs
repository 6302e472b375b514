//! What holds of every run, whatever the driver reports.

use crate::archive::files_of;
use crate::archive::work_items_of;
use crate::archive::WorkItemView;
use crate::error::DecodeFailure;
use crate::archive::ArchiveEntryView;
use crate::keys::file_name_of;
use crate::keys::lemma_file_name_is_the_last_name;
use crate::keys::temp_path_of;
use crate::machine::start_of;
use crate::machine::transformed;
use crate::machine::ControllerView;
use crate::protocol::ActionView;
use crate::protocol::EventView;
use crate::protocol::IngestEventView;
use crate::protocol::PipelineKindView;
use crate::records::records_failure;
use crate::records::TransactionView;
use crate::signal::status_payload_text;
use crate::signal::CompletionSignalView;
use vstd::prelude::*;
use vstd::utf8::encode_utf8;

verus! {

/// The state that a run reaches from `state` when the driver reports
/// `events` in turn, each with the seconds elapsed when it was reported.
pub open spec fn run_of(state: ControllerView, events: Seq<(EventView, nat)>) -> ControllerView
    decreases events.len(),
{
    if events.len() == 0 {
        state
    } else {
        run_of(state, events.drop_last()).step_of(events.last().0, events.last().1).0
    }
}

/// Every step keeps a controller well formed.
pub proof fn lemma_step_keeps_wf(state: ControllerView, event: EventView, now: nat)
    requires
        state.wf(),
    ensures
        state.step_of(event, now).0.wf(),
{
    reveal(ControllerView::step_of);
}

/// Every run keeps a controller well formed.
pub proof fn lemma_run_keeps_wf(state: ControllerView, events: Seq<(EventView, nat)>)
    requires
        state.wf(),
    ensures
        run_of(state, events).wf(),
    decreases events.len(),
{
    if events.len() > 0 {
        lemma_run_keeps_wf(state, events.drop_last());
        lemma_step_keeps_wf(
            run_of(state, events.drop_last()),
            events.last().0,
            events.last().1,
        );
    }
}

/// The outcome of a run only grows: no step takes back an item, a second of
/// elapsed time, a failure or a failure note.
pub proof fn lemma_outcome_only_grows(state: ControllerView, event: EventView, now: nat)
    requires
        state.wf(),
    ensures
        state.result.precedes(state.step_of(event, now).0.result),
{
    reveal(ControllerView::step_of);
}

/// The outcome of a run only grows, whatever the driver reports and however
/// often.
pub proof fn lemma_run_only_grows(state: ControllerView, events: Seq<(EventView, nat)>)
    requires
        state.wf(),
    ensures
        state.result.precedes(run_of(state, events).result),
    decreases events.len(),
{
    if events.len() > 0 {
        lemma_run_only_grows(state, events.drop_last());
        lemma_run_keeps_wf(state, events.drop_last());
        lemma_outcome_only_grows(
            run_of(state, events.drop_last()),
            events.last().0,
            events.last().1,
        );
    }
}

/// Once the transform step is behind a run, no step changes the number of
/// items, and none leads back before it.
pub proof fn lemma_count_is_settled(state: ControllerView, event: EventView, now: nat)
    requires
        transformed(state.stage),
    ensures
        state.step_of(event, now).0.result.item_count == state.result.item_count,
        transformed(state.step_of(event, now).0.stage),
{
    reveal(ControllerView::step_of);
}

/// Once the transform step is behind a run, the number of items stays what
/// it is, whatever is reported afterwards.
pub proof fn lemma_count_survives(state: ControllerView, events: Seq<(EventView, nat)>)
    requires
        transformed(state.stage),
    ensures
        run_of(state, events).result.item_count == state.result.item_count,
        transformed(run_of(state, events).stage),
    decreases events.len(),
{
    if events.len() > 0 {
        lemma_count_survives(state, events.drop_last());
        lemma_count_is_settled(
            run_of(state, events.drop_last()),
            events.last().0,
            events.last().1,
        );
    }
}

/// The item count of an extract run is the number of work items that the
/// transform step made of the archive, whatever comes of publishing them.
pub proof fn lemma_extract_counts_work_items(
    state: ControllerView,
    entries: Seq<ArchiveEntryView>,
    now: nat,
    events: Seq<(EventView, nat)>,
)
    requires
        state.kind is Extract,
        state.stage is Decoding,
        work_items_of(entries, state.label) is Ok,
    ensures
        run_of(
            state.step_of(EventView::ArchiveDecoded { entries }, now).0,
            events,
        ).result.item_count == files_of(entries, state.label).len(),
{
    reveal(ControllerView::step_of);
    lemma_count_survives(state.step_of(EventView::ArchiveDecoded { entries }, now).0, events);
}

/// The item count of an aggregate run is the number of records that the
/// transform step accepted.
pub proof fn lemma_aggregate_counts_records(
    state: ControllerView,
    records: Seq<TransactionView>,
    now: nat,
    events: Seq<(EventView, nat)>,
)
    requires
        state.kind is Aggregate,
        state.stage is Decoding,
        records_failure(records) is None,
    ensures
        run_of(
            state.step_of(EventView::RecordsDecoded { records }, now).0,
            events,
        ).result.item_count == records.len(),
{
    reveal(ControllerView::step_of);
    lemma_count_survives(state.step_of(EventView::RecordsDecoded { records }, now).0, events);
}

/// One malformed record is fatal: the transform step ends the run as failed,
/// and no item is counted.
pub proof fn lemma_bad_record_is_fatal(
    state: ControllerView,
    records: Seq<TransactionView>,
    now: nat,
)
    requires
        state.wf(),
        state.kind is Aggregate,
        state.stage is Decoding,
        records_failure(records) is Some,
    ensures
        ({
            let (after, action) = state.step_of(EventView::RecordsDecoded { records }, now);
            &&& after.stage is Finished
            &&& after.result.status is Failure
            &&& after.result.failure_detail is Some
            &&& after.result.item_count == state.result.item_count
            &&& action == ActionView::Finish { result: after.result }
        }),
{
    reveal(ControllerView::step_of);
}

/// An archive without work items (it is empty, or holds directories only)
/// gives a successful run with no item: nothing is published, the workflow
/// is triggered, and the run ends as a success whether or not the trigger
/// was delivered.
pub proof fn lemma_empty_archive_succeeds(
    state: ControllerView,
    entries: Seq<ArchiveEntryView>,
    now: nat,
    delivered: bool,
)
    requires
        state.wf(),
        state.kind is Extract,
        state.stage is Decoding,
        work_items_of(entries, state.label) == Ok::<Seq<WorkItemView>, DecodeFailure>(
            Seq::empty(),
        ),
    ensures
        ({
            let decoded = state.step_of(EventView::ArchiveDecoded { entries }, now);
            let written = decoded.0.step_of(EventView::Materialized, now);
            let signaled = written.0.step_of(
                if delivered {
                    EventView::Signaled
                } else {
                    EventView::SignalFailed
                },
                now,
            );
            &&& decoded.1 == ActionView::Materialize { items: Seq::empty() }
            &&& written.1 is Signal
            &&& signaled.0.stage is Finished
            &&& signaled.0.result.status is Success
            &&& signaled.0.result.item_count == 0
            &&& signaled.1 == ActionView::Finish { result: signaled.0.result }
        }),
{
    reveal(ControllerView::step_of);
}

/// An untracked run (an aggregate run whose token is empty) never asks for a
/// signal to be sent.
pub proof fn lemma_untracked_run_sends_nothing(state: ControllerView, event: EventView, now: nat)
    requires
        state.kind matches PipelineKindView::Aggregate { token } && token.len() == 0,
    ensures
        !(state.step_of(event, now).1 is Signal),
        state.step_of(event, now).0.kind == state.kind,
{
    reveal(ControllerView::step_of);
}

/// An untracked run whose steps all succeeded ends as a success when its
/// work is done.
pub proof fn lemma_untracked_run_succeeds(state: ControllerView, now: nat)
    requires
        state.wf(),
        state.kind matches PipelineKindView::Aggregate { token } && token.len() == 0,
        state.stage is Pausing,
    ensures
        ({
            let (after, action) = state.step_of(EventView::Resumed, now);
            &&& after.stage is Finished
            &&& after.result.status is Success
            &&& action == ActionView::Finish { result: after.result }
        }),
{
    reveal(ControllerView::step_of);
}

/// A tracked run whose steps all succeeded reports once its work is done:
/// it asks for the task-token report to be sent, with the status payload of
/// its outcome.
pub proof fn lemma_tracked_run_reports(state: ControllerView, now: nat)
    requires
        state.wf(),
        state.kind matches PipelineKindView::Aggregate { token } && token.len() > 0,
        state.stage is Pausing,
    ensures
        ({
            let (after, action) = state.step_of(EventView::Resumed, now);
            &&& after.stage is Signaling
            &&& after.result.status is Success
            &&& action == ActionView::Signal {
                signal: CompletionSignalView::TaskTokenReport {
                    token: state.kind->token,
                    result: status_payload_text(
                        state.label,
                        after.result.elapsed_secs,
                        after.result.item_count,
                        after.result.derived_metric,
                    ),
                },
            }
        }),
{
    reveal(ControllerView::step_of);
}

/// No item is dropped in silence: when an extract run asks for its signal
/// to be sent, every item has been handed out for publishing and answered,
/// and at least one of them was published if there were any.
pub proof fn lemma_signal_follows_every_item(state: ControllerView, event: EventView, now: nat)
    requires
        state.wf(),
        state.kind is Extract,
        state.step_of(event, now).1 is Signal,
    ensures
        ({
            let after = state.step_of(event, now).0;
            &&& after.next == after.uploads.len()
            &&& after.uploads.len() > 0 ==> after.failed < after.uploads.len()
        }),
{
    reveal(ControllerView::step_of);
}

/// A failure to publish is not fatal while another item was published: the
/// run goes on with the next item, or to its signal.
pub proof fn lemma_publish_failure_is_noted(state: ControllerView, now: nat)
    requires
        state.wf(),
        state.stage is Publishing,
    ensures
        ({
            let after = state.step_of(EventView::PublishFailed, now).0;
            &&& after.failed == state.failed + 1
            &&& after.result.failure_detail is Some
            &&& after.result.item_count == state.result.item_count
            &&& after.result.status is Failure <==> after.failed == after.uploads.len()
        }),
{
    reveal(ControllerView::step_of);
}

/// What the controller does by itself is over after one more step: the
/// answer to a decoded archive, or to a chosen delay, is an action for the
/// driver.
pub proof fn lemma_own_work_settles(state: ControllerView, event: EventView, now: nat)
    requires
        event is ArchiveDecoded || event is ArchiveRejected || event is DelayChosen,
    ensures
        !(state.step_of(event, now).1 is DecodeArchive),
        !(state.step_of(event, now).1 is ChooseDelay),
{
    reveal(ControllerView::step_of);
}

/// A run works on the event and in the pipeline it was made for: no step
/// changes either.
pub proof fn lemma_event_is_kept(state: ControllerView, event: EventView, now: nat)
    ensures
        state.step_of(event, now).0.event == state.event,
        state.step_of(event, now).0.kind == state.kind,
{
    reveal(ControllerView::step_of);
}

/// A run that is over stays over: every event is ignored.
pub proof fn lemma_finished_is_final(state: ControllerView, event: EventView, now: nat)
    requires
        state.stage is Finished,
    ensures
        state.step_of(event, now) == (state, ActionView::Ignore),
{
    reveal(ControllerView::step_of);
}

/// How many times the controller asks for a signal to be sent while the
/// driver reports `events` in turn.
pub open spec fn signals_in(state: ControllerView, events: Seq<(EventView, nat)>) -> nat
    decreases events.len(),
{
    if events.len() == 0 {
        0
    } else {
        let before = run_of(state, events.drop_last());
        let asked: nat = if before.step_of(events.last().0, events.last().1).1 is Signal {
            1
        } else {
            0
        };
        signals_in(state, events.drop_last()) + asked
    }
}

/// A signal is asked for on the way into the signaling stage only, and
/// nothing leads from that stage but the end of the run.
pub proof fn lemma_signal_ends_the_work(state: ControllerView, event: EventView, now: nat)
    ensures
        ({
            let (after, action) = state.step_of(event, now);
            &&& action is Signal ==> after.stage is Signaling && !(state.stage is Signaling
                || state.stage is Finished)
            &&& state.stage is Signaling || state.stage is Finished ==> after.stage is Signaling
                || after.stage is Finished
            &&& after.stage is Signaling && !(state.stage is Signaling) ==> action is Signal
        }),
{
    reveal(ControllerView::step_of);
}

/// A run asks for at most one signal, and for none once it is signaling or
/// over.
pub proof fn lemma_at_most_one_signal(state: ControllerView, events: Seq<(EventView, nat)>)
    ensures
        signals_in(state, events) <= 1,
        state.stage is Signaling || state.stage is Finished ==> signals_in(state, events) == 0,
        signals_in(state, events) == 1 ==> run_of(state, events).stage is Signaling || run_of(
            state,
            events,
        ).stage is Finished,
        state.stage is Signaling || state.stage is Finished ==> run_of(state, events).stage
            is Signaling || run_of(state, events).stage is Finished,
    decreases events.len(),
{
    if events.len() > 0 {
        lemma_at_most_one_signal(state, events.drop_last());
        lemma_signal_ends_the_work(
            run_of(state, events.drop_last()),
            events.last().0,
            events.last().1,
        );
    }
}

/// An archive with a file whose path leaves the extraction root is fatal:
/// the transform step ends the run as failed, and nothing is written or
/// published.
pub proof fn lemma_escaping_path_is_fatal(
    state: ControllerView,
    entries: Seq<ArchiveEntryView>,
    now: nat,
)
    requires
        state.wf(),
        state.kind is Extract,
        state.stage is Decoding,
        work_items_of(entries, state.label) is Err,
    ensures
        ({
            let (after, action) = state.step_of(EventView::ArchiveDecoded { entries }, now);
            &&& after.stage is Finished
            &&& after.result.status is Failure
            &&& after.result.item_count == 0
            &&& action == ActionView::Finish { result: after.result }
        }),
{
    reveal(ControllerView::step_of);
}

/// A fetched blob is kept in the temporary directory itself, whatever its
/// key holds: under a name that is not empty, holds no slash, and is
/// neither `.` nor `..`.
pub proof fn lemma_blob_is_kept_under_its_file_name(kind: PipelineKindView, event: IngestEventView)
    requires
        start_of(kind, event) is Some,
    ensures
        ({
            let file = file_name_of(event.object_key);
            let name = encode_utf8(file.unwrap());
            &&& file is Some
            &&& start_of(kind, event) matches Some(names) && names.1 == temp_path_of(file.unwrap())
            &&& name.len() > 0
            &&& forall|i: int| 0 <= i < name.len() ==> name[i] != '/' as u8
            &&& name != seq!['.' as u8]
            &&& name != seq!['.' as u8, '.' as u8]
        }),
{
    lemma_file_name_is_the_last_name(event.object_key);
}

} // verus!
