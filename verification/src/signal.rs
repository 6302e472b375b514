//! Completion signals: what a finished run hands to the workflow
//! orchestrator, and the JSON payloads they carry.

use crate::keys::processed_prefix;
use crate::keys::processed_prefix_of;
use crate::text::decimal_text;
use crate::text::digit_char;
use crate::text::render_decimal;
use serde_json::Value;
use vstd::prelude::*;
use vstd::string::*;

verus! {

/// The JSON value type of `serde_json`, carried as an opaque value.
#[verifier::external_type_specification]
#[verifier::external_body]
pub struct ExJsonValue(Value);

/// The JSON object type of `serde_json`, carried as an opaque value.
#[verifier::external_type_specification]
#[verifier::external_body]
#[verifier::reject_recursive_types(K)]
#[verifier::reject_recursive_types(V)]
pub struct ExJsonObject<K, V>(serde_json::Map<K, V>);

/// A value of a payload member: a text or a count.
#[derive(Debug, PartialEq, Eq)]
pub enum JsonScalar {
    Text(String),
    Count(u64),
}

/// The mathematical model of a [`JsonScalar`].
pub enum JsonScalarView {
    Text(Seq<char>),
    Count(nat),
}

impl DeepView for JsonScalar {
    type V = JsonScalarView;

    open spec fn deep_view(&self) -> JsonScalarView {
        match self {
            JsonScalar::Text(text) => JsonScalarView::Text(text@),
            JsonScalar::Count(count) => JsonScalarView::Count(*count as nat),
        }
    }
}

/// A hexadecimal digit, in lower case.
pub open spec fn hex_digit(d: nat) -> char {
    if d < 10 {
        digit_char(d)
    } else if d == 10 {
        'a'
    } else if d == 11 {
        'b'
    } else if d == 12 {
        'c'
    } else if d == 13 {
        'd'
    } else if d == 14 {
        'e'
    } else {
        'f'
    }
}

/// How a character stands inside a JSON string: the quote and the backslash
/// after a backslash, a control character as its short escape or as
/// `\u00` and two hexadecimal digits, any other character as itself.
pub open spec fn escaped(c: char) -> Seq<char> {
    let code = c as u32;
    if c == '"' {
        seq!['\\', '"']
    } else if c == '\\' {
        seq!['\\', '\\']
    } else if code == 0x08 {
        seq!['\\', 'b']
    } else if code == 0x09 {
        seq!['\\', 't']
    } else if code == 0x0a {
        seq!['\\', 'n']
    } else if code == 0x0c {
        seq!['\\', 'f']
    } else if code == 0x0d {
        seq!['\\', 'r']
    } else if code < 0x20 {
        seq!['\\', 'u', '0', '0', hex_digit((code / 16) as nat), hex_digit((code % 16) as nat)]
    } else {
        seq![c]
    }
}

/// The characters of `text`, each as it stands inside a JSON string.
pub open spec fn escaped_text(text: Seq<char>) -> Seq<char>
    decreases text.len(),
{
    if text.len() == 0 {
        Seq::empty()
    } else {
        escaped_text(text.drop_last()) + escaped(text.last())
    }
}

/// The JSON string literal of `text`.
pub open spec fn json_string_literal(text: Seq<char>) -> Seq<char> {
    seq!['"'] + escaped_text(text) + seq!['"']
}

/// The JSON text of a member's value.
pub open spec fn scalar_text(value: JsonScalarView) -> Seq<char> {
    match value {
        JsonScalarView::Text(text) => json_string_literal(text),
        JsonScalarView::Count(count) => decimal_text(count),
    }
}

/// The members of an object in compact form: each as its name, a colon and
/// its value, with commas between them.
pub open spec fn members_text(members: Seq<(Seq<char>, JsonScalarView)>) -> Seq<char>
    decreases members.len(),
{
    if members.len() == 0 {
        Seq::empty()
    } else {
        let member = json_string_literal(members.last().0) + seq![':'] + scalar_text(
            members.last().1,
        );
        if members.len() == 1 {
            member
        } else {
            members_text(members.drop_last()) + seq![','] + member
        }
    }
}

/// A JSON object in compact form.
pub open spec fn object_text(members: Seq<(Seq<char>, JsonScalarView)>) -> Seq<char> {
    seq!['{'] + members_text(members) + seq!['}']
}

/// Whether the name `a` comes before the name `b` in the order of their
/// characters.
pub open spec fn key_precedes(a: Seq<char>, b: Seq<char>) -> bool
    decreases a.len(),
{
    if b.len() == 0 {
        false
    } else if a.len() == 0 {
        true
    } else if a[0] != b[0] {
        (a[0] as u32) < (b[0] as u32)
    } else {
        key_precedes(a.drop_first(), b.drop_first())
    }
}

/// The members that a JSON object holds, in the order in which it is walked
/// and written.
pub uninterp spec fn json_members(object: serde_json::Map<String, Value>) -> Seq<
    (Seq<char>, JsonScalarView),
>;

/// `serde_json::Map::new`: an object without members.
#[verifier::external_body]
fn json_object_new() -> (object: serde_json::Map<String, Value>)
    ensures
        json_members(object) == Seq::<(Seq<char>, JsonScalarView)>::empty(),
{
    serde_json::Map::new()
}

/// `serde_json::Map::insert` of a member whose name comes after every name
/// in the object: the member becomes the last one, and the others stay. (The
/// object keeps its members in the order of their names, or, where it is
/// built to preserve order, in the order of insertion: here both agree.)
#[verifier::external_body]
fn json_object_insert(
    object: &mut serde_json::Map<String, Value>,
    key: String,
    value: JsonScalar,
)
    requires
        forall|i: int|
            0 <= i < json_members(*old(object)).len() ==> key_precedes(
                (#[trigger] json_members(*old(object))[i]).0,
                key@,
            ),
    ensures
        json_members(*final(object)) == json_members(*old(object)).push(
            (key@, value.deep_view()),
        ),
{
    object.insert(
        key,
        match value {
            JsonScalar::Text(text) => Value::String(text),
            JsonScalar::Count(count) => Value::from(count),
        },
    );
}

/// `serde_json::Value::Object(..)` rendered by its `Display`: the object in
/// compact form, its members in the order in which it holds them, a text as
/// a string literal with the escapes of [`escaped`], a count in decimal.
#[verifier::external_body]
fn json_object_text(object: serde_json::Map<String, Value>) -> (text: String)
    ensures
        text@ == object_text(json_members(object)),
{
    Value::Object(object).to_string()
}

/// The signal that ends a successful run.
#[derive(Debug, PartialEq, Eq)]
pub enum CompletionSignal {
    /// Reports success to the workflow step that waits on `token`.
    TaskTokenReport { token: String, result: String },
    /// Starts an execution of the workflow `target_id`.
    WorkflowTrigger { target_id: String, input_payload: String },
}

/// The mathematical model of a [`CompletionSignal`].
pub enum CompletionSignalView {
    TaskTokenReport { token: Seq<char>, result: Seq<char> },
    WorkflowTrigger { target_id: Seq<char>, input_payload: Seq<char> },
}

impl DeepView for CompletionSignal {
    type V = CompletionSignalView;

    open spec fn deep_view(&self) -> CompletionSignalView {
        match self {
            CompletionSignal::TaskTokenReport { token, result } => {
                CompletionSignalView::TaskTokenReport { token: token@, result: result@ }
            },
            CompletionSignal::WorkflowTrigger { target_id, input_payload } => {
                CompletionSignalView::WorkflowTrigger {
                    target_id: target_id@,
                    input_payload: input_payload@,
                }
            },
        }
    }
}

/// The `processing_time` field of a status payload.
pub open spec fn processing_time_text(elapsed_secs: nat) -> Seq<char> {
    decimal_text(elapsed_secs) + " seconds"@
}

/// The `total_sales` field of a status payload, for a total given as decimal
/// text.
pub open spec fn total_sales_text(total: Seq<char>) -> Seq<char> {
    "$"@ + total
}

/// The members of the status payload of a task-token report.
pub open spec fn status_members(
    store: Seq<char>,
    elapsed_secs: nat,
    item_count: nat,
    total: Seq<char>,
) -> Seq<(Seq<char>, JsonScalarView)> {
    seq![
        ("item_transaction_count"@, JsonScalarView::Count(item_count)),
        ("processing_time"@, JsonScalarView::Text(processing_time_text(elapsed_secs))),
        ("status"@, JsonScalarView::Text("Success"@)),
        ("store_number"@, JsonScalarView::Text(store)),
        ("total_sales"@, JsonScalarView::Text(total_sales_text(total))),
    ]
}

/// The status payload of a task-token report: a JSON object in compact form.
pub open spec fn status_payload_text(
    store: Seq<char>,
    elapsed_secs: nat,
    item_count: nat,
    total: Seq<char>,
) -> Seq<char> {
    object_text(status_members(store, elapsed_secs, item_count, total))
}

/// The members of the input of a workflow execution.
pub open spec fn workflow_members(bucket: Seq<char>, archive_name: Seq<char>) -> Seq<
    (Seq<char>, JsonScalarView),
> {
    seq![
        ("bucket_path"@, JsonScalarView::Text(processed_prefix_of(archive_name))),
        ("source_bucket_name"@, JsonScalarView::Text(bucket)),
    ]
}

/// The input of a workflow execution: a JSON object in compact form that
/// names the bucket and the key prefix of what a run published.
pub open spec fn workflow_input_text(bucket: Seq<char>, archive_name: Seq<char>) -> Seq<char> {
    object_text(workflow_members(bucket, archive_name))
}

/// The member names of the payloads stand in the order of their characters.
proof fn lemma_member_names_in_order()
    ensures
        key_precedes("item_transaction_count"@, "processing_time"@),
        key_precedes("item_transaction_count"@, "status"@),
        key_precedes("item_transaction_count"@, "store_number"@),
        key_precedes("item_transaction_count"@, "total_sales"@),
        key_precedes("processing_time"@, "status"@),
        key_precedes("processing_time"@, "store_number"@),
        key_precedes("processing_time"@, "total_sales"@),
        key_precedes("status"@, "store_number"@),
        key_precedes("status"@, "total_sales"@),
        key_precedes("store_number"@, "total_sales"@),
        key_precedes("bucket_path"@, "source_bucket_name"@),
{
    reveal_strlit("item_transaction_count");
    reveal_strlit("processing_time");
    reveal_strlit("status");
    reveal_strlit("store_number");
    reveal_strlit("total_sales");
    reveal_strlit("bucket_path");
    reveal_strlit("source_bucket_name");
    reveal_with_fuel(key_precedes, 3);
}

/// Builds the status payload of a task-token report.
pub fn status_payload(store: &str, elapsed_secs: u64, item_count: usize, total: &str) -> (payload:
    String)
    ensures
        payload@ == status_payload_text(store@, elapsed_secs as nat, item_count as nat, total@),
{
    let mut time = render_decimal(elapsed_secs);
    time.append(" seconds");
    let mut sales = String::from_str("$");
    sales.append(total);
    proof {
        lemma_member_names_in_order();
    }
    let mut object = json_object_new();
    json_object_insert(
        &mut object,
        String::from_str("item_transaction_count"),
        JsonScalar::Count(item_count as u64),
    );
    json_object_insert(&mut object, String::from_str("processing_time"), JsonScalar::Text(time));
    json_object_insert(
        &mut object,
        String::from_str("status"),
        JsonScalar::Text(String::from_str("Success")),
    );
    json_object_insert(
        &mut object,
        String::from_str("store_number"),
        JsonScalar::Text(store.to_owned()),
    );
    json_object_insert(&mut object, String::from_str("total_sales"), JsonScalar::Text(sales));
    proof {
        assert(json_members(object) =~= status_members(
            store@,
            elapsed_secs as nat,
            item_count as nat,
            total@,
        ));
    }
    json_object_text(object)
}

/// Builds the input of the workflow execution that processes what was
/// published from the archive `archive_name` of `bucket`.
pub fn workflow_input(bucket: &str, archive_name: &str) -> (input: String)
    ensures
        input@ == workflow_input_text(bucket@, archive_name@),
{
    proof {
        lemma_member_names_in_order();
    }
    let mut object = json_object_new();
    json_object_insert(
        &mut object,
        String::from_str("bucket_path"),
        JsonScalar::Text(processed_prefix(archive_name)),
    );
    json_object_insert(
        &mut object,
        String::from_str("source_bucket_name"),
        JsonScalar::Text(bucket.to_owned()),
    );
    proof {
        assert(json_members(object) =~= workflow_members(bucket@, archive_name@));
    }
    json_object_text(object)
}

/// The task-token report of a run, or `None` for an untracked run (one whose
/// token is empty), which reports nothing.
pub open spec fn task_token_report_of(
    token: Seq<char>,
    store: Seq<char>,
    elapsed_secs: nat,
    item_count: nat,
    total: Seq<char>,
) -> Option<CompletionSignalView> {
    if token.len() == 0 {
        None
    } else {
        Some(
            CompletionSignalView::TaskTokenReport {
                token,
                result: status_payload_text(store, elapsed_secs, item_count, total),
            },
        )
    }
}

/// The workflow trigger of a run on the archive `archive_name` of `bucket`.
pub open spec fn workflow_trigger_of(
    target_id: Seq<char>,
    bucket: Seq<char>,
    archive_name: Seq<char>,
) -> CompletionSignalView {
    CompletionSignalView::WorkflowTrigger {
        target_id,
        input_payload: workflow_input_text(bucket, archive_name),
    }
}

/// Task-token adapter: the report to send for a run, if the run is tracked.
pub fn task_token_report(
    token: &str,
    store: &str,
    elapsed_secs: u64,
    item_count: usize,
    total: &str,
) -> (signal: Option<CompletionSignal>)
    ensures
        signal.deep_view() == task_token_report_of(
            token@,
            store@,
            elapsed_secs as nat,
            item_count as nat,
            total@,
        ),
{
    if token.is_empty() {
        None
    } else {
        Some(
            CompletionSignal::TaskTokenReport {
                token: token.to_owned(),
                result: status_payload(store, elapsed_secs, item_count, total),
            },
        )
    }
}

/// Workflow-trigger adapter: the signal that starts the workflow `target_id`
/// on what a run published.
pub fn workflow_trigger(target_id: &str, bucket: &str, archive_name: &str) -> (signal:
    CompletionSignal)
    ensures
        signal.deep_view() == workflow_trigger_of(target_id@, bucket@, archive_name@),
{
    CompletionSignal::WorkflowTrigger {
        target_id: target_id.to_owned(),
        input_payload: workflow_input(bucket, archive_name),
    }
}

} // verus!
