use ingest_pipeline::error::PipelineError;
use ingest_pipeline::outcome::RunResult;
use ingest_pipeline::outcome::RunStatus;

#[test]
fn new_result_has_zero_defaults() {
    let result = RunResult::new();
    assert_eq!(result.item_count, 0);
    assert_eq!(result.derived_metric, "0.00");
    assert_eq!(result.elapsed_secs, 0);
    assert_eq!(result.status, RunStatus::Success);
    assert_eq!(result.failure_detail, None);
}

#[test]
fn at_keeps_the_later_reading() {
    assert_eq!(RunResult::new().at(5).elapsed_secs, 5);
    assert_eq!(RunResult::new().at(5).at(3).elapsed_secs, 5);
    assert_eq!(RunResult::new().at(5).at(5).elapsed_secs, 5);
    assert_eq!(RunResult::new().at(5).at(6).elapsed_secs, 6);
}

#[test]
fn noting_joins_notes_in_order() {
    let result = RunResult::new().noting(PipelineError::Publish { item: 0 });
    assert_eq!(result.failure_detail, Some(String::from("publish failed: item 0")));
    assert_eq!(result.status, RunStatus::Success);
    let result = result.noting(PipelineError::Signal);
    assert_eq!(
        result.failure_detail,
        Some(String::from("publish failed: item 0; signal failed"))
    );
}

#[test]
fn failed_changes_the_status_only() {
    let result = RunResult::new().counting(3).measuring(String::from("1.50")).at(2).failed();
    assert_eq!(
        result,
        RunResult {
            item_count: 3,
            derived_metric: String::from("1.50"),
            elapsed_secs: 2,
            status: RunStatus::Failure,
            failure_detail: None,
        }
    );
}

#[test]
fn duplicate_is_equal() {
    let result = RunResult::new().counting(3).noting(PipelineError::Io).failed();
    assert_eq!(result.duplicate(), result);
}
