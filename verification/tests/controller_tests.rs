use ingest_pipeline::archive::WorkItem;
use ingest_pipeline::controller::Controller;
use ingest_pipeline::error::FetchFailure;
use ingest_pipeline::machine::Stage;
use ingest_pipeline::outcome::RunResult;
use ingest_pipeline::outcome::RunStatus;
use ingest_pipeline::protocol::Action;
use ingest_pipeline::protocol::Event;
use ingest_pipeline::protocol::IngestEvent;
use ingest_pipeline::protocol::PipelineKind;
use ingest_pipeline::records::Transaction;
use ingest_pipeline::signal::status_payload;
use ingest_pipeline::signal::workflow_input;
use ingest_pipeline::signal::CompletionSignal;
use std::io::Cursor;
use std::io::Write;
use zip::write::SimpleFileOptions;
use zip::ZipWriter;

fn event(key: &str) -> IngestEvent {
    IngestEvent { source_location: String::from("sales-bucket"), object_key: String::from(key) }
}

fn aggregate(token: &str, key: &str) -> Controller {
    Controller::new(PipelineKind::Aggregate { token: String::from(token) }, event(key))
}

fn extract(key: &str) -> Controller {
    Controller::new(PipelineKind::Extract { target_id: String::from("arn:machine") }, event(key))
}

fn record(quantity: &str, unit_price: &str) -> Transaction {
    Transaction {
        invoice_no: String::from("536365"),
        stock_code: String::from("85123A"),
        description: String::from("WHITE HANGING HEART T-LIGHT HOLDER"),
        quantity: String::from(quantity),
        invoice_date: String::from("12/1/2010 8:26"),
        unit_price: String::from(unit_price),
        customer_id: String::from("17850"),
        country: String::from("United Kingdom"),
    }
}

fn archive(names: &[&str]) -> Vec<u8> {
    let mut writer = ZipWriter::new(Cursor::new(Vec::new()));
    for name in names {
        if name.ends_with('/') {
            writer.add_directory(*name, SimpleFileOptions::default()).unwrap();
        } else {
            writer.start_file(*name, SimpleFileOptions::default()).unwrap();
            writer.write_all(name.as_bytes()).unwrap();
        }
    }
    writer.finish().unwrap().into_inner()
}

fn item(name: &str) -> WorkItem {
    WorkItem {
        relative_path: String::from(name),
        local_path: format!("/tmp/extract/{}", name),
        destination_key: format!("processed/sales.zip/{}", name),
        content: name.as_bytes().to_vec(),
    }
}

fn publish(name: &str) -> Action {
    Action::Publish {
        location: String::from("sales-bucket"),
        local_path: format!("/tmp/extract/{}", name),
        destination_key: format!("processed/sales.zip/{}", name),
    }
}

fn trigger() -> Action {
    Action::Signal {
        signal: CompletionSignal::WorkflowTrigger {
            target_id: String::from("arn:machine"),
            input_payload: workflow_input("sales-bucket", "sales.zip"),
        },
    }
}

fn failure(detail: &str, item_count: usize, elapsed_secs: u64) -> Action {
    Action::Finish {
        result: RunResult {
            item_count,
            derived_metric: String::from("0.00"),
            elapsed_secs,
            status: RunStatus::Failure,
            failure_detail: Some(String::from(detail)),
        },
    }
}

fn success(item_count: usize, detail: Option<&str>) -> Action {
    Action::Finish {
        result: RunResult {
            item_count,
            derived_metric: String::from("0.00"),
            elapsed_secs: 0,
            status: RunStatus::Success,
            failure_detail: detail.map(String::from),
        },
    }
}

/// An extract run on `names`, brought to the point where its files are
/// written and the first item, if any, is handed out.
fn extracted(names: &[&str]) -> (Controller, Action) {
    let (controller, _) = extract("uploads/sales.zip").step(Event::Started, 0);
    let (controller, _) = controller.advance(Event::Fetched { blob: archive(names) }, 0);
    controller.step(Event::Materialized, 0)
}

/// An aggregate run brought to the point where its records are asked for.
fn fetched(token: &str) -> Controller {
    let (controller, _) = aggregate(token, "stores/store_0042.csv").step(Event::Started, 0);
    let (controller, _) = controller.step(Event::Fetched { blob: b"[]".to_vec() }, 0);
    controller
}

#[test]
fn new_controller_has_done_nothing() {
    let controller = aggregate("task-1", "stores/store_0042.csv");
    assert_eq!(controller.stage(), Stage::Created);
    assert_eq!(
        *controller.result(),
        RunResult {
            item_count: 0,
            derived_metric: String::from("0.00"),
            elapsed_secs: 0,
            status: RunStatus::Success,
            failure_detail: None,
        }
    );
}

#[test]
fn aggregate_run_of_two_records_reports_their_total() {
    let controller = aggregate("task-1", "stores/store_0042.csv");
    let (controller, action) = controller.step(Event::Started, 0);
    assert_eq!(
        action,
        Action::Fetch {
            location: String::from("sales-bucket"),
            key: String::from("stores/store_0042.csv"),
            local_path: String::from("/tmp/store_0042.csv"),
        }
    );
    assert_eq!(controller.stage(), Stage::Fetching);
    let (controller, action) = controller.step(Event::Fetched { blob: b"[..]".to_vec() }, 1);
    assert_eq!(action, Action::DecodeRecords { blob: b"[..]".to_vec() });
    let records = vec![record("2", "3.50"), record("1", "10.00")];
    let (controller, action) = controller.step(Event::RecordsDecoded { records }, 1);
    let Action::Aggregate { records } = action else { panic!("expected the records back") };
    assert_eq!(controller.result().item_count, 2);
    let mut total: f32 = 0.0;
    for r in &records {
        total += r.quantity.parse::<f32>().unwrap() * r.unit_price.parse::<f32>().unwrap();
    }
    assert!((total - 17.0).abs() <= 17.0 * 1e-4);
    let total = format!("{:.2}", total);
    let (controller, action) = controller.step(Event::Aggregated { total }, 1);
    assert_eq!(action, Action::ChooseDelay);
    let (controller, action) = controller.step(Event::DelayChosen { seconds: 5 }, 1);
    assert_eq!(action, Action::Pause { seconds: 5 });
    let (controller, action) = controller.step(Event::Resumed, 7);
    let payload = "{\"item_transaction_count\":2,\"processing_time\":\"7 seconds\",\
                   \"status\":\"Success\",\"store_number\":\"0042\",\"total_sales\":\"$17.00\"}";
    assert_eq!(
        action,
        Action::Signal {
            signal: CompletionSignal::TaskTokenReport {
                token: String::from("task-1"),
                result: String::from(payload),
            }
        }
    );
    assert_eq!(payload, status_payload("0042", 7, 2, "17.00"));
    let (controller, action) = controller.step(Event::Signaled, 8);
    assert_eq!(
        action,
        Action::Finish {
            result: RunResult {
                item_count: 2,
                derived_metric: String::from("17.00"),
                elapsed_secs: 8,
                status: RunStatus::Success,
                failure_detail: None,
            }
        }
    );
    assert_eq!(controller.stage(), Stage::Finished);
}

#[test]
fn advance_draws_a_delay_within_its_bounds() {
    let mut drawn = Vec::new();
    for _ in 0..200 {
        let (controller, _) =
            fetched("task-1").step(Event::RecordsDecoded { records: Vec::new() }, 0);
        let total = String::from("0.00");
        let (controller, action) = controller.advance(Event::Aggregated { total }, 0);
        let Action::Pause { seconds } = action else { panic!("expected a pause") };
        assert!(4 <= seconds && seconds < 20);
        assert_eq!(controller.stage(), Stage::Pausing);
        drawn.push(seconds);
    }
    // Two hundred draws from sixteen values are never all the same.
    assert!(drawn.iter().any(|seconds| *seconds != drawn[0]));
}

#[test]
fn delay_out_of_bounds_is_ignored() {
    let (controller, _) = fetched("task-1").step(Event::RecordsDecoded { records: Vec::new() }, 0);
    let (controller, _) = controller.step(Event::Aggregated { total: String::from("0.00") }, 0);
    let (controller, action) = controller.step(Event::DelayChosen { seconds: 3 }, 0);
    assert_eq!(action, Action::Ignore);
    let (controller, action) = controller.step(Event::DelayChosen { seconds: 20 }, 0);
    assert_eq!(action, Action::Ignore);
    assert_eq!(controller.stage(), Stage::Delaying);
    let (_, action) = controller.step(Event::DelayChosen { seconds: 19 }, 0);
    assert_eq!(action, Action::Pause { seconds: 19 });
}

#[test]
fn untracked_run_succeeds_without_a_signal() {
    let mut controller = aggregate("", "stores/store_0042.csv");
    let events = vec![
        Event::Started,
        Event::Fetched { blob: Vec::new() },
        Event::RecordsDecoded { records: vec![record("2", "3.50")] },
        Event::Aggregated { total: String::from("7.00") },
        Event::DelayChosen { seconds: 4 },
    ];
    for e in events {
        let (next, action) = controller.step(e, 0);
        assert!(!matches!(action, Action::Signal { .. }));
        assert!(!matches!(action, Action::Finish { .. }));
        controller = next;
    }
    let (controller, action) = controller.step(Event::Resumed, 4);
    assert_eq!(
        action,
        Action::Finish {
            result: RunResult {
                item_count: 1,
                derived_metric: String::from("7.00"),
                elapsed_secs: 4,
                status: RunStatus::Success,
                failure_detail: None,
            }
        }
    );
    assert_eq!(controller.stage(), Stage::Finished);
}

#[test]
fn untracked_run_needs_no_store_identifier() {
    let (_, action) = aggregate("", "x.csv").step(Event::Started, 0);
    assert_eq!(
        action,
        Action::Fetch {
            location: String::from("sales-bucket"),
            key: String::from("x.csv"),
            local_path: String::from("/tmp/x.csv"),
        }
    );
}

#[test]
fn tracked_run_needs_a_store_identifier() {
    let (controller, action) = aggregate("task-1", "stores/x.csv").step(Event::Started, 2);
    assert_eq!(action, failure("invalid event", 0, 2));
    assert_eq!(controller.stage(), Stage::Finished);
}

#[test]
fn empty_key_is_an_invalid_event() {
    let (_, action) = aggregate("task-1", "").step(Event::Started, 0);
    assert_eq!(action, failure("invalid event", 0, 0));
    let (_, action) = extract("").step(Event::Started, 0);
    assert_eq!(action, failure("invalid event", 0, 0));
}

#[test]
fn key_without_a_file_name_is_an_invalid_event() {
    let (_, action) = aggregate("", "stores/..").step(Event::Started, 0);
    assert_eq!(action, failure("invalid event", 0, 0));
    let (_, action) = aggregate("", "/").step(Event::Started, 0);
    assert_eq!(action, failure("invalid event", 0, 0));
}

#[test]
fn key_without_an_archive_name_is_an_invalid_event() {
    let (_, action) = extract("a.zip").step(Event::Started, 0);
    assert_eq!(action, failure("invalid event", 0, 0));
}

#[test]
fn fetch_failure_is_fatal() {
    let (controller, _) = aggregate("task-1", "stores/store_0042.csv").step(Event::Started, 0);
    let (controller, action) =
        controller.step(Event::FetchFailed { cause: FetchFailure::NotFound }, 3);
    assert_eq!(action, failure("fetch failed: not found", 0, 3));
    assert_eq!(controller.stage(), Stage::Finished);
    let (controller, _) = extract("uploads/sales.zip").step(Event::Started, 0);
    let (_, action) = controller.step(Event::FetchFailed { cause: FetchFailure::AccessDenied }, 0);
    assert_eq!(action, failure("fetch failed: access denied", 0, 0));
    let (controller, _) = extract("uploads/sales.zip").step(Event::Started, 0);
    let (_, action) = controller.step(Event::FetchFailed { cause: FetchFailure::Transient }, 0);
    assert_eq!(action, failure("fetch failed: transient i/o", 0, 0));
}

#[test]
fn non_numeric_quantity_fails_the_transform_step() {
    let records = vec![record("2", "3.50"), record("two", "10.00")];
    let (controller, action) = fetched("task-1").step(Event::RecordsDecoded { records }, 1);
    assert_eq!(action, failure("decode failed: quantity is not a number in record 1", 0, 1));
    assert_eq!(controller.stage(), Stage::Finished);
    assert_eq!(controller.result().status, RunStatus::Failure);
}

#[test]
fn non_numeric_unit_price_fails_the_transform_step() {
    let records = vec![record("2", "")];
    let (_, action) = fetched("").step(Event::RecordsDecoded { records }, 0);
    assert_eq!(action, failure("decode failed: unit price is not a number in record 0", 0, 0));
}

#[test]
fn malformed_record_list_fails_the_transform_step() {
    let (_, action) = fetched("task-1").step(Event::RecordsRejected, 0);
    assert_eq!(action, failure("decode failed: malformed record list", 0, 0));
}

#[test]
fn empty_record_list_is_no_error() {
    let (controller, action) = fetched("").step(Event::RecordsDecoded { records: Vec::new() }, 0);
    assert_eq!(action, Action::Aggregate { records: Vec::new() });
    assert_eq!(controller.result().item_count, 0);
    assert_eq!(controller.result().status, RunStatus::Success);
}

#[test]
fn extract_run_publishes_the_file_and_skips_the_directory() {
    let (controller, action) = extract("uploads/sales.zip").step(Event::Started, 0);
    assert_eq!(
        action,
        Action::Fetch {
            location: String::from("sales-bucket"),
            key: String::from("uploads/sales.zip"),
            local_path: String::from("/tmp/sales.zip"),
        }
    );
    let blob = archive(&["a/b.json", "c/"]);
    let (controller, action) = controller.advance(Event::Fetched { blob }, 0);
    assert_eq!(action, Action::Materialize { items: vec![item("a/b.json")] });
    assert_eq!(controller.stage(), Stage::Materializing);
    assert_eq!(controller.result().item_count, 1);
    let (controller, action) = controller.step(Event::Materialized, 0);
    assert_eq!(action, publish("a/b.json"));
    let (controller, action) = controller.step(Event::Published, 0);
    assert_eq!(action, trigger());
    let (controller, action) = controller.step(Event::Signaled, 0);
    assert_eq!(action, success(1, None));
    assert_eq!(controller.stage(), Stage::Finished);
}

#[test]
fn step_leaves_the_archive_to_be_decoded() {
    let (controller, _) = extract("uploads/sales.zip").step(Event::Started, 0);
    let blob = archive(&["a/b.json"]);
    let (controller, action) = controller.step(Event::Fetched { blob: blob.clone() }, 0);
    assert_eq!(action, Action::DecodeArchive { blob });
    assert_eq!(controller.stage(), Stage::Decoding);
}

#[test]
fn empty_archive_gives_a_successful_run_without_items() {
    let (controller, action) = extracted(&[]);
    assert_eq!(action, trigger());
    let (_, action) = controller.step(Event::Signaled, 0);
    assert_eq!(action, success(0, None));
}

#[test]
fn archive_of_directories_gives_a_successful_run_without_items() {
    let (controller, _) = extract("uploads/sales.zip").step(Event::Started, 0);
    let blob = archive(&["a/", "a/b/", "c/"]);
    let (controller, action) = controller.advance(Event::Fetched { blob }, 0);
    assert_eq!(action, Action::Materialize { items: Vec::new() });
    let (controller, action) = controller.step(Event::Materialized, 0);
    assert_eq!(action, trigger());
    let (_, action) = controller.step(Event::Signaled, 0);
    assert_eq!(action, success(0, None));
}

#[test]
fn corrupt_archive_fails_the_transform_step() {
    let (controller, _) = extract("uploads/sales.zip").step(Event::Started, 0);
    let (controller, action) =
        controller.advance(Event::Fetched { blob: b"no archive".to_vec() }, 5);
    assert_eq!(action, failure("decode failed: corrupt container", 0, 5));
    assert_eq!(controller.stage(), Stage::Finished);
}

#[test]
fn archive_with_an_escaping_path_fails_the_transform_step() {
    for name in ["../x", "/abs/x"] {
        let (controller, _) = extract("uploads/sales.zip").step(Event::Started, 0);
        let blob = archive(&["a.csv", name]);
        let (controller, action) = controller.advance(Event::Fetched { blob }, 1);
        assert_eq!(
            action,
            failure("decode failed: path leaves the extraction root in entry 1", 0, 1)
        );
        assert_eq!(controller.stage(), Stage::Finished);
    }
}

#[test]
fn fetched_blob_is_kept_under_its_file_name() {
    let (_, action) = extract("uploads/../../etc/sales.zip").step(Event::Started, 0);
    assert_eq!(
        action,
        Action::Fetch {
            location: String::from("sales-bucket"),
            key: String::from("uploads/../../etc/sales.zip"),
            local_path: String::from("/tmp/sales.zip"),
        }
    );
    let (_, action) = extract("uploads/x/..").step(Event::Started, 0);
    assert_eq!(action, failure("invalid event", 0, 0));
}

#[test]
fn unwritable_extraction_root_is_fatal() {
    let (controller, _) = extract("uploads/sales.zip").step(Event::Started, 0);
    let (controller, _) = controller.advance(Event::Fetched { blob: archive(&["a.csv"]) }, 0);
    let (controller, action) = controller.step(Event::MaterializeFailed, 0);
    assert_eq!(action, failure("i/o failed: extraction root", 1, 0));
    assert_eq!(controller.stage(), Stage::Finished);
}

#[test]
fn items_are_published_one_at_a_time_in_decode_order() {
    let (controller, action) = extracted(&["z.csv", "d/", "a.csv", "m.csv"]);
    assert_eq!(action, publish("z.csv"));
    let (controller, action) = controller.step(Event::Published, 0);
    assert_eq!(action, publish("a.csv"));
    let (controller, action) = controller.step(Event::Published, 0);
    assert_eq!(action, publish("m.csv"));
    let (_, action) = controller.step(Event::Published, 0);
    assert_eq!(action, trigger());
}

#[test]
fn publish_failure_is_noted_and_the_run_goes_on() {
    let (controller, _) = extracted(&["a.csv", "b.csv", "c.csv"]);
    let (controller, action) = controller.step(Event::PublishFailed, 0);
    assert_eq!(action, publish("b.csv"));
    assert_eq!(controller.result().status, RunStatus::Success);
    let (controller, action) = controller.step(Event::Published, 0);
    assert_eq!(action, publish("c.csv"));
    let (controller, action) = controller.step(Event::PublishFailed, 0);
    assert_eq!(action, trigger());
    let (_, action) = controller.step(Event::Signaled, 0);
    assert_eq!(action, success(3, Some("publish failed: item 0; publish failed: item 2")));
}

#[test]
fn run_fails_when_no_item_could_be_published() {
    let (controller, _) = extracted(&["a.csv", "b.csv"]);
    let (controller, action) = controller.step(Event::PublishFailed, 0);
    assert_eq!(action, publish("b.csv"));
    let (controller, action) = controller.step(Event::PublishFailed, 9);
    assert_eq!(action, failure("publish failed: item 0; publish failed: item 1", 2, 9));
    assert_eq!(controller.stage(), Stage::Finished);
}

#[test]
fn item_count_does_not_depend_on_what_was_published() {
    let outcomes = [[true, true], [true, false], [false, true], [false, false]];
    for outcome in outcomes {
        let (mut controller, _) = extracted(&["a.csv", "b.csv"]);
        for published in outcome {
            let e = if published { Event::Published } else { Event::PublishFailed };
            controller = controller.step(e, 0).0;
        }
        controller = controller.step(Event::Signaled, 0).0;
        assert_eq!(controller.stage(), Stage::Finished);
        assert_eq!(controller.result().item_count, 2);
    }
}

#[test]
fn undelivered_signal_is_noted_only() {
    let (controller, _) = extracted(&["a.csv"]);
    let (controller, action) = controller.step(Event::Published, 0);
    assert_eq!(action, trigger());
    let (_, action) = controller.step(Event::SignalFailed, 0);
    assert_eq!(action, success(1, Some("signal failed")));
}

#[test]
fn unexpected_event_changes_nothing() {
    let controller = aggregate("task-1", "stores/store_0042.csv");
    let (controller, action) = controller.step(Event::Published, 9);
    assert_eq!(action, Action::Ignore);
    assert_eq!(controller.stage(), Stage::Created);
    assert_eq!(controller.result().elapsed_secs, 0);
    let (controller, action) =
        fetched("task-1").step(Event::ArchiveDecoded { entries: Vec::new() }, 0);
    assert_eq!(action, Action::Ignore);
    assert_eq!(controller.stage(), Stage::Decoding);
    let (controller, _) = extract("uploads/sales.zip").step(Event::Started, 0);
    let (controller, _) = controller.step(Event::Fetched { blob: Vec::new() }, 0);
    let (controller, action) = controller.step(Event::RecordsDecoded { records: Vec::new() }, 0);
    assert_eq!(action, Action::Ignore);
    let (controller, action) = controller.step(Event::RecordsRejected, 0);
    assert_eq!(action, Action::Ignore);
    assert_eq!(controller.stage(), Stage::Decoding);
}

#[test]
fn finished_run_ignores_every_event() {
    let (controller, _) = extract("").step(Event::Started, 0);
    let (controller, action) = controller.step(Event::Started, 0);
    assert_eq!(action, Action::Ignore);
    let (controller, action) = controller.step(Event::Signaled, 0);
    assert_eq!(action, Action::Ignore);
    assert_eq!(controller.stage(), Stage::Finished);
    assert_eq!(controller.result().status, RunStatus::Failure);
}

#[test]
fn elapsed_time_never_goes_back() {
    let (controller, _) = extract("uploads/sales.zip").step(Event::Started, 10);
    assert_eq!(controller.result().elapsed_secs, 10);
    let (controller, _) = controller.step(Event::Fetched { blob: Vec::new() }, 3);
    assert_eq!(controller.result().elapsed_secs, 10);
    let (controller, _) = controller.step(
        Event::ArchiveRejected { failure: ingest_pipeline::error::DecodeFailure::CorruptContainer },
        12,
    );
    assert_eq!(controller.result().elapsed_secs, 12);
}
