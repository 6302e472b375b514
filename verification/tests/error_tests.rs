use ingest_pipeline::error::DecodeFailure;
use ingest_pipeline::error::FetchFailure;
use ingest_pipeline::error::PipelineError;

#[test]
fn describe_invalid_event() {
    assert_eq!(PipelineError::InvalidEvent.describe(), "invalid event");
}

#[test]
fn describe_fetch_failures() {
    assert_eq!(
        PipelineError::Fetch(FetchFailure::NotFound).describe(),
        "fetch failed: not found"
    );
    assert_eq!(
        PipelineError::Fetch(FetchFailure::AccessDenied).describe(),
        "fetch failed: access denied"
    );
    assert_eq!(
        PipelineError::Fetch(FetchFailure::Transient).describe(),
        "fetch failed: transient i/o"
    );
}

#[test]
fn describe_decode_failures() {
    assert_eq!(
        PipelineError::Decode(DecodeFailure::CorruptContainer).describe(),
        "decode failed: corrupt container"
    );
    assert_eq!(
        PipelineError::Decode(DecodeFailure::CorruptEntry { index: 12 }).describe(),
        "decode failed: corrupt entry 12"
    );
    assert_eq!(
        PipelineError::Decode(DecodeFailure::EscapingEntry { index: 2 }).describe(),
        "decode failed: path leaves the extraction root in entry 2"
    );
    assert_eq!(
        PipelineError::Decode(DecodeFailure::MalformedRecords).describe(),
        "decode failed: malformed record list"
    );
    assert_eq!(
        PipelineError::Decode(DecodeFailure::BadQuantity { record: 0 }).describe(),
        "decode failed: quantity is not a number in record 0"
    );
    assert_eq!(
        PipelineError::Decode(DecodeFailure::BadUnitPrice { record: 305 }).describe(),
        "decode failed: unit price is not a number in record 305"
    );
}

#[test]
fn describe_io_publish_and_signal_failures() {
    assert_eq!(PipelineError::Io.describe(), "i/o failed: extraction root");
    assert_eq!(PipelineError::Publish { item: 3 }.describe(), "publish failed: item 3");
    assert_eq!(PipelineError::Signal.describe(), "signal failed");
}
