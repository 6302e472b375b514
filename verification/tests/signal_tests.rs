use ingest_pipeline::signal::status_payload;
use ingest_pipeline::signal::task_token_report;
use ingest_pipeline::signal::workflow_input;
use ingest_pipeline::signal::workflow_trigger;
use ingest_pipeline::signal::CompletionSignal;
use serde_json::Value;

#[test]
fn status_payload_of_two_records() {
    let total: f32 = 2.0 * 3.50 + 1.0 * 10.00;
    let payload = status_payload("0042", 7, 2, format!("{:.2}", total).as_str());
    assert_eq!(
        payload,
        "{\"item_transaction_count\":2,\"processing_time\":\"7 seconds\",\"status\":\"Success\",\
         \"store_number\":\"0042\",\"total_sales\":\"$17.00\"}"
    );
}

#[test]
fn status_payload_reads_back_as_json() {
    let payload = status_payload("0042", 7, 2, "17.00");
    let value: Value = serde_json::from_str(payload.as_str()).unwrap();
    assert_eq!(value["status"], Value::from("Success"));
    assert_eq!(value["store_number"], Value::from("0042"));
    assert_eq!(value["processing_time"], Value::from("7 seconds"));
    assert_eq!(value["item_transaction_count"], Value::from(2));
    assert_eq!(value["total_sales"], Value::from("$17.00"));
}

#[test]
fn status_payload_is_what_a_json_object_renders_to() {
    let mut members = serde_json::Map::new();
    members.insert(String::from("status"), Value::from("Success"));
    members.insert(String::from("store_number"), Value::from("a\"b\\c\n"));
    members.insert(String::from("processing_time"), Value::from("18446744073709551615 seconds"));
    members.insert(String::from("item_transaction_count"), Value::from(305usize));
    members.insert(String::from("total_sales"), Value::from("$-12.50"));
    assert_eq!(
        status_payload("a\"b\\c\n", u64::MAX, 305, "-12.50"),
        Value::Object(members).to_string()
    );
}

#[test]
fn status_payload_escapes_what_json_reserves() {
    let payload = status_payload("a\"b", 0, 0, "0.00");
    assert!(payload.contains("\"store_number\":\"a\\\"b\""));
}

#[test]
fn status_payload_escapes_control_characters() {
    let payload = status_payload("\u{1}\u{8}\t\n\u{b}\u{c}\r\u{1f} \u{7f}é/", 0, 0, "0.00");
    assert!(payload.contains(
        "\"store_number\":\"\\u0001\\b\\t\\n\\u000b\\f\\r\\u001f \u{7f}é/\""
    ));
}

#[test]
fn workflow_input_names_bucket_and_prefix() {
    assert_eq!(
        workflow_input("sales-bucket", "sales.zip"),
        "{\"bucket_path\":\"processed/sales.zip/\",\"source_bucket_name\":\"sales-bucket\"}"
    );
}

#[test]
fn workflow_input_holds_its_two_fields_as_its_own_members() {
    let input = workflow_input("sales-bucket", "odd \"name\".zip");
    let value: Value = serde_json::from_str(input.as_str()).unwrap();
    let members = value.as_object().unwrap();
    assert_eq!(members.len(), 2);
    assert_eq!(members["source_bucket_name"], Value::from("sales-bucket"));
    assert_eq!(members["bucket_path"], Value::from("processed/odd \"name\".zip/"));
}

#[test]
fn task_token_report_of_a_tracked_run() {
    assert_eq!(
        task_token_report("token-1", "0042", 7, 2, "17.00"),
        Some(CompletionSignal::TaskTokenReport {
            token: String::from("token-1"),
            result: status_payload("0042", 7, 2, "17.00"),
        })
    );
}

#[test]
fn task_token_report_of_an_untracked_run_is_nothing() {
    assert_eq!(task_token_report("", "0042", 7, 2, "17.00"), None);
}

#[test]
fn workflow_trigger_carries_the_input() {
    assert_eq!(
        workflow_trigger("arn:machine", "sales-bucket", "sales.zip"),
        CompletionSignal::WorkflowTrigger {
            target_id: String::from("arn:machine"),
            input_payload: workflow_input("sales-bucket", "sales.zip"),
        }
    );
}
