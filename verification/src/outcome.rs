//! The accumulated outcome of a pipeline run.

use crate::error::failure_text;
use crate::error::PipelineError;
use vstd::prelude::*;
use vstd::string::*;

verus! {

/// Whether a run has succeeded so far.
#[derive(Clone, Copy, Debug, PartialEq, Eq)]
pub enum RunStatus {
    Success,
    Failure,
}

/// What a run has brought about so far. It only grows: counts and elapsed
/// time never decrease, a failure is never taken back, and a failure detail
/// is only added to.
#[derive(Debug, PartialEq, Eq)]
pub struct RunResult {
    /// The number of work items that the transform step produced.
    pub item_count: usize,
    /// The metric derived from the items, as decimal text.
    pub derived_metric: String,
    /// Whole seconds since the run started.
    pub elapsed_secs: u64,
    /// Whether the run has succeeded so far.
    pub status: RunStatus,
    /// What went wrong, one note per failure, in the order they were met.
    pub failure_detail: Option<String>,
}

/// The mathematical model of a [`RunResult`].
pub struct RunResultView {
    pub item_count: nat,
    pub derived_metric: Seq<char>,
    pub elapsed_secs: nat,
    pub status: RunStatus,
    pub failure_detail: Option<Seq<char>>,
}

impl DeepView for RunResult {
    type V = RunResultView;

    open spec fn deep_view(&self) -> RunResultView {
        RunResultView {
            item_count: self.item_count as nat,
            derived_metric: self.derived_metric@,
            elapsed_secs: self.elapsed_secs as nat,
            status: self.status,
            failure_detail: match self.failure_detail {
                Some(detail) => Some(detail@),
                None => None,
            },
        }
    }
}

/// The outcome of a run that has done nothing yet.
pub open spec fn initial_result() -> RunResultView {
    RunResultView {
        item_count: 0,
        derived_metric: "0.00"@,
        elapsed_secs: 0,
        status: RunStatus::Success,
        failure_detail: None,
    }
}

/// A failure detail with one more note: notes are separated by `"; "`.
pub open spec fn with_note(detail: Option<Seq<char>>, note: Seq<char>) -> Option<Seq<char>> {
    match detail {
        Some(earlier) => Some(earlier + "; "@ + note),
        None => Some(note),
    }
}

impl RunResultView {
    /// The outcome once `now` seconds are known to have elapsed.
    pub open spec fn at(self, now: nat) -> RunResultView {
        RunResultView {
            elapsed_secs: if now > self.elapsed_secs {
                now
            } else {
                self.elapsed_secs
            },
            ..self
        }
    }

    /// The outcome with `count` work items.
    pub open spec fn counting(self, count: nat) -> RunResultView {
        RunResultView { item_count: count, ..self }
    }

    /// The outcome with the derived metric `metric`.
    pub open spec fn measuring(self, metric: Seq<char>) -> RunResultView {
        RunResultView { derived_metric: metric, ..self }
    }

    /// The outcome once `error` was met and the run went on.
    pub open spec fn noting(self, error: PipelineError) -> RunResultView {
        RunResultView {
            failure_detail: with_note(self.failure_detail, failure_text(error)),
            ..self
        }
    }

    /// The outcome of a run that has failed.
    pub open spec fn failed(self) -> RunResultView {
        RunResultView { status: RunStatus::Failure, ..self }
    }

    /// Whether `later` can follow `self` in one run: nothing that only grows
    /// has shrunk.
    pub open spec fn precedes(self, later: RunResultView) -> bool {
        &&& self.item_count <= later.item_count
        &&& self.elapsed_secs <= later.elapsed_secs
        &&& self.status is Failure ==> later.status is Failure
        &&& self.failure_detail is Some ==> later.failure_detail is Some
    }
}

impl RunResult {
    /// The outcome of a run that has done nothing yet.
    pub fn new() -> (result: RunResult)
        ensures
            result.deep_view() == initial_result(),
    {
        RunResult {
            item_count: 0,
            derived_metric: String::from_str("0.00"),
            elapsed_secs: 0,
            status: RunStatus::Success,
            failure_detail: None,
        }
    }

    /// Records that `now` seconds have elapsed; an earlier reading is kept
    /// where `now` is behind it.
    pub fn at(self, now: u64) -> (result: RunResult)
        ensures
            result.deep_view() == self.deep_view().at(now as nat),
    {
        let elapsed_secs = if now > self.elapsed_secs {
            now
        } else {
            self.elapsed_secs
        };
        RunResult { elapsed_secs, ..self }
    }

    /// Records `error` in the failure detail; the status stays as it is.
    pub fn noting(self, error: PipelineError) -> (result: RunResult)
        ensures
            result.deep_view() == self.deep_view().noting(error),
    {
        let note = error.describe();
        let failure_detail = match self.failure_detail {
            Some(earlier) => {
                let mut detail = earlier;
                detail.append("; ");
                detail.append(note.as_str());
                Some(detail)
            },
            None => Some(note),
        };
        RunResult {
            item_count: self.item_count,
            derived_metric: self.derived_metric,
            elapsed_secs: self.elapsed_secs,
            status: self.status,
            failure_detail,
        }
    }

    /// The outcome with `count` work items.
    pub fn counting(self, count: usize) -> (result: RunResult)
        ensures
            result.deep_view() == self.deep_view().counting(count as nat),
    {
        RunResult { item_count: count, ..self }
    }

    /// The outcome with the derived metric `metric`.
    pub fn measuring(self, metric: String) -> (result: RunResult)
        ensures
            result.deep_view() == self.deep_view().measuring(metric@),
    {
        RunResult { derived_metric: metric, ..self }
    }

    /// A copy of the outcome.
    pub fn duplicate(&self) -> (copy: RunResult)
        ensures
            copy.deep_view() == self.deep_view(),
    {
        RunResult {
            item_count: self.item_count,
            derived_metric: self.derived_metric.clone(),
            elapsed_secs: self.elapsed_secs,
            status: self.status,
            failure_detail: match &self.failure_detail {
                Some(detail) => Some(detail.clone()),
                None => None,
            },
        }
    }

    /// Marks the run as failed.
    pub fn failed(self) -> (result: RunResult)
        ensures
            result.deep_view() == self.deep_view().failed(),
    {
        RunResult { status: RunStatus::Failure, ..self }
    }
}

} // verus!
