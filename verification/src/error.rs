//! The failures a pipeline run can meet, and the text that records them.

use crate::text::decimal_text;
use crate::text::render_decimal;
use vstd::prelude::*;
use vstd::string::*;

verus! {

/// Why the content store could not produce a blob.
#[derive(Clone, Copy, Debug, PartialEq, Eq)]
pub enum FetchFailure {
    NotFound,
    AccessDenied,
    Transient,
}

/// Why a blob could not be decoded into work items.
#[derive(Clone, Copy, Debug, PartialEq, Eq)]
pub enum DecodeFailure {
    /// The archive container cannot be read.
    CorruptContainer,
    /// The archive member at `index` cannot be read.
    CorruptEntry { index: usize },
    /// The path of the archive member at `index` leaves the extraction root.
    EscapingEntry { index: usize },
    /// The stream is no well-formed list of records.
    MalformedRecords,
    /// The quantity of the record at `record` is no number.
    BadQuantity { record: usize },
    /// The unit price of the record at `record` is no number.
    BadUnitPrice { record: usize },
}

/// A failure of one step of a run.
#[derive(Clone, Copy, Debug, PartialEq, Eq)]
pub enum PipelineError {
    /// The event names no usable object.
    InvalidEvent,
    /// The blob could not be fetched.
    Fetch(FetchFailure),
    /// The blob could not be decoded.
    Decode(DecodeFailure),
    /// The extraction root could not be created or written.
    Io,
    /// The item at `item` could not be published.
    Publish { item: usize },
    /// The completion signal could not be delivered.
    Signal,
}

/// The text that records `error` in a run's failure detail.
pub open spec fn failure_text(error: PipelineError) -> Seq<char> {
    match error {
        PipelineError::InvalidEvent => "invalid event"@,
        PipelineError::Fetch(FetchFailure::NotFound) => "fetch failed: not found"@,
        PipelineError::Fetch(FetchFailure::AccessDenied) => "fetch failed: access denied"@,
        PipelineError::Fetch(FetchFailure::Transient) => "fetch failed: transient i/o"@,
        PipelineError::Decode(DecodeFailure::CorruptContainer) => {
            "decode failed: corrupt container"@
        },
        PipelineError::Decode(DecodeFailure::CorruptEntry { index }) => {
            "decode failed: corrupt entry "@ + decimal_text(index as nat)
        },
        PipelineError::Decode(DecodeFailure::EscapingEntry { index }) => {
            "decode failed: path leaves the extraction root in entry "@ + decimal_text(index as nat)
        },
        PipelineError::Decode(DecodeFailure::MalformedRecords) => {
            "decode failed: malformed record list"@
        },
        PipelineError::Decode(DecodeFailure::BadQuantity { record }) => {
            "decode failed: quantity is not a number in record "@ + decimal_text(record as nat)
        },
        PipelineError::Decode(DecodeFailure::BadUnitPrice { record }) => {
            "decode failed: unit price is not a number in record "@ + decimal_text(record as nat)
        },
        PipelineError::Io => "i/o failed: extraction root"@,
        PipelineError::Publish { item } => "publish failed: item "@ + decimal_text(item as nat),
        PipelineError::Signal => "signal failed"@,
    }
}

fn numbered(label: &str, number: usize) -> (text: String)
    ensures
        text@ == label@ + decimal_text(number as nat),
{
    let mut text = String::from_str(label);
    let digits = render_decimal(number as u64);
    text.append(digits.as_str());
    text
}

impl PipelineError {
    /// Renders the error as it is recorded in a run's failure detail.
    pub fn describe(&self) -> (text: String)
        ensures
            text@ == failure_text(*self),
    {
        match self {
            PipelineError::InvalidEvent => String::from_str("invalid event"),
            PipelineError::Fetch(FetchFailure::NotFound) => String::from_str(
                "fetch failed: not found",
            ),
            PipelineError::Fetch(FetchFailure::AccessDenied) => String::from_str(
                "fetch failed: access denied",
            ),
            PipelineError::Fetch(FetchFailure::Transient) => String::from_str(
                "fetch failed: transient i/o",
            ),
            PipelineError::Decode(DecodeFailure::CorruptContainer) => String::from_str(
                "decode failed: corrupt container",
            ),
            PipelineError::Decode(DecodeFailure::CorruptEntry { index }) => numbered(
                "decode failed: corrupt entry ",
                *index,
            ),
            PipelineError::Decode(DecodeFailure::EscapingEntry { index }) => numbered(
                "decode failed: path leaves the extraction root in entry ",
                *index,
            ),
            PipelineError::Decode(DecodeFailure::MalformedRecords) => String::from_str(
                "decode failed: malformed record list",
            ),
            PipelineError::Decode(DecodeFailure::BadQuantity { record }) => numbered(
                "decode failed: quantity is not a number in record ",
                *record,
            ),
            PipelineError::Decode(DecodeFailure::BadUnitPrice { record }) => numbered(
                "decode failed: unit price is not a number in record ",
                *record,
            ),
            PipelineError::Io => String::from_str("i/o failed: extraction root"),
            PipelineError::Publish { item } => numbered("publish failed: item ", *item),
            PipelineError::Signal => String::from_str("signal failed"),
        }
    }
}

} // verus!
