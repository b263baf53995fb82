use std::time::Duration;

use bson::{Bson, Document};
use mongodb_core::concern::{ReadConcern, ReadConcernLevel};
use mongodb_core::error::{CommandError, Error, ErrorKind};
use mongodb_core::namespace::Namespace;
use mongodb_core::operation::count::{Count, EstimatedDocumentCountOptions};
use mongodb_core::operation::response::RawCommandResponse;
use mongodb_core::operation::{Operation, Retryability};
use mongodb_core::selection_criteria::{ReadPreference, SelectionCriteria};
use mongodb_core::stream_description::{StreamDescription, SERVER_4_9_0_WIRE_VERSION};

fn test_ns() -> Namespace {
    Namespace { db: "test_db".to_string(), coll: "test_coll".to_string() }
}

fn reply(doc: &Document) -> RawCommandResponse {
    RawCommandResponse::with_document(doc).expect("reply should encode")
}

fn newer_server() -> StreamDescription {
    let mut description = StreamDescription::new_testing();
    description.max_wire_version = Some(SERVER_4_9_0_WIRE_VERSION);
    description
}

#[test]
fn count_build() {
    let mut count_op = Count::new(test_ns(), None);
    let count_command = count_op
        .build(&StreamDescription::new_testing())
        .expect("error on build");
    let mut expected = Document::new();
    expected.insert("count", "test_coll");
    assert_eq!(count_command.body, expected);
    assert_eq!(count_command.name, "count");
    assert_eq!(count_command.target_db, "test_db");
    assert!(count_command.read_concern.is_none());
}

#[test]
fn count_build_serializes_to_minimal_fields() {
    let mut count_op = Count::new(test_ns(), None);
    let command = count_op.build(&StreamDescription::new_testing()).expect("error on build");
    let bytes = count_op.serialize_command(command).expect("command should encode");
    let sent: Document = bson::from_slice(&bytes).expect("bytes should decode");

    let mut expected = Document::new();
    expected.insert("count", "test_coll");
    expected.insert("$db", "test_db");
    assert_eq!(sent, expected);
    assert_eq!(sent.keys().collect::<Vec<_>>(), vec!["count", "$db"]);
}

#[test]
fn count_build_with_options() {
    let read_concern = ReadConcern::new(ReadConcernLevel::Local);
    let max_time = Duration::from_millis(2_u64);
    let options = EstimatedDocumentCountOptions {
        max_time: Some(max_time),
        selection_criteria: None,
        read_concern: Some(read_concern.clone()),
    };
    let mut count_op = Count::new(test_ns(), Some(options));
    let count_command = count_op
        .build(&StreamDescription::new_testing())
        .expect("error on build");

    assert_eq!(count_command.target_db, "test_db");

    let mut level = Document::new();
    level.insert("level", read_concern.level.as_str().to_string());
    let mut expected_body = Document::new();
    expected_body.insert("count", "test_coll");
    expected_body.insert("$db", "test_db");
    expected_body.insert("maxTimeMS", max_time.as_millis() as i32);
    expected_body.insert("readConcern", level);

    let cmd_bytes = count_op.serialize_command(count_command).unwrap();
    let cmd_doc: Document = bson::from_slice(&cmd_bytes).unwrap();

    assert_eq!(cmd_doc, expected_body);
    let mut sent_keys: Vec<&String> = cmd_doc.keys().collect();
    let mut expected_keys: Vec<&String> = expected_body.keys().collect();
    sent_keys.sort();
    expected_keys.sort();
    assert_eq!(sent_keys, expected_keys);
}

#[test]
fn count_build_with_long_time_limit_uses_64_bits() {
    let options = EstimatedDocumentCountOptions {
        max_time: Some(Duration::from_millis(3_000_000_000)),
        selection_criteria: None,
        read_concern: None,
    };
    let mut count_op = Count::new(test_ns(), Some(options));
    let command = count_op.build(&StreamDescription::new_testing()).expect("error on build");
    assert_eq!(command.body.get("maxTimeMS"), Some(&Bson::Int64(3_000_000_000)));
}

#[test]
fn count_build_rejects_time_limit_beyond_the_wire() {
    let options = EstimatedDocumentCountOptions {
        max_time: Some(Duration::from_secs(u64::MAX)),
        selection_criteria: None,
        read_concern: None,
    };
    let mut count_op = Count::new(test_ns(), Some(options));
    let error = count_op.build(&StreamDescription::new_testing()).unwrap_err();
    assert!(matches!(error.kind(), ErrorKind::InvalidArgument { .. }));
}

#[test]
fn count_build_for_newer_server_aggregates() {
    let mut count_op = Count::new(test_ns(), None);
    let command = count_op.build(&newer_server()).expect("error on build");
    assert_eq!(command.name, "aggregate");
    assert_eq!(command.target_db, "test_db");

    let mut stats = Document::new();
    stats.insert("count", Document::new());
    let mut first = Document::new();
    first.insert("$collStats", stats);
    let mut sum = Document::new();
    sum.insert("$sum", "$count");
    let mut group = Document::new();
    group.insert("_id", 1_i32);
    group.insert("n", sum);
    let mut second = Document::new();
    second.insert("$group", group);
    let mut expected = Document::new();
    expected.insert("aggregate", "test_coll");
    expected.insert("pipeline", vec![Bson::Document(first), Bson::Document(second)]);
    expected.insert("cursor", Document::new());
    assert_eq!(command.body, expected);
    assert_eq!(command.body.keys().collect::<Vec<_>>(), vec!["aggregate", "pipeline", "cursor"]);
}

#[test]
fn count_op_selection_criteria() {
    let criteria = SelectionCriteria::ReadPreference(ReadPreference::Secondary);
    let options = EstimatedDocumentCountOptions {
        max_time: None,
        selection_criteria: Some(criteria),
        read_concern: None,
    };
    let op = Count::new(Namespace::empty(), Some(options));
    assert_eq!(op.selection_criteria(), Some(criteria));

    let op = Count::new(Namespace::empty(), None);
    assert_eq!(op.selection_criteria(), None);
}

#[test]
fn count_handle_success() {
    let count_op = Count::empty();

    let n = 26;
    let mut response = Document::new();
    response.insert("ok", 1.0);
    response.insert("n", n as i32);

    let actual_values = count_op
        .handle_response(&reply(&response), &StreamDescription::new_testing())
        .unwrap();
    assert_eq!(actual_values, n);
}

#[test]
fn count_handle_success_agg() {
    let count_op = Count::empty();

    let n = 26;
    let mut counted = Document::new();
    counted.insert("n", n as i32);
    let mut cursor = Document::new();
    cursor.insert("id", 0_i32);
    cursor.insert("ns", "a.b");
    cursor.insert("firstBatch", vec![Bson::Document(counted)]);
    let mut response = Document::new();
    response.insert("ok", 1.0);
    response.insert("cursor", cursor);

    let actual_values = count_op.handle_response(&reply(&response), &newer_server()).unwrap();
    assert_eq!(actual_values, n);
}

#[test]
fn count_handle_agg_reply_from_older_server_is_invalid() {
    let count_op = Count::empty();
    let mut counted = Document::new();
    counted.insert("n", 26_i32);
    let mut cursor = Document::new();
    cursor.insert("id", 0_i32);
    cursor.insert("ns", "a.b");
    cursor.insert("firstBatch", vec![Bson::Document(counted)]);
    let mut response = Document::new();
    response.insert("ok", 1.0);
    response.insert("cursor", cursor);

    let error = count_op
        .handle_response(&reply(&response), &StreamDescription::new_testing())
        .unwrap_err();
    assert!(matches!(error.kind(), ErrorKind::InvalidResponse { .. }));
}

#[test]
fn count_handle_response_no_n() {
    let count_op = Count::empty();
    let mut response = Document::new();
    response.insert("ok", 1.0);
    let error = count_op
        .handle_response(&reply(&response), &StreamDescription::new_testing())
        .unwrap_err();
    assert!(matches!(error.kind(), ErrorKind::InvalidResponse { .. }));
}

#[test]
fn count_handle_response_empty_reply() {
    let count_op = Count::empty();
    let error = count_op
        .handle_response(&reply(&Document::new()), &StreamDescription::new_testing())
        .unwrap_err();
    assert!(matches!(error.kind(), ErrorKind::InvalidResponse { .. }));
}

#[test]
fn count_handle_response_undecodable_reply() {
    let count_op = Count::empty();
    let garbage = RawCommandResponse::new(Default::default(), vec![1, 2, 3]);
    let error = count_op
        .handle_response(&garbage, &StreamDescription::new_testing())
        .unwrap_err();
    assert!(matches!(error.kind(), ErrorKind::InvalidResponse { .. }));
}

#[test]
fn count_handle_response_reads_counts_of_every_width() {
    let count_op = Count::empty();
    let description = StreamDescription::new_testing();

    let mut wide = Document::new();
    wide.insert("ok", 1_i32);
    wide.insert("n", 5_000_000_000_i64);
    assert_eq!(count_op.handle_response(&reply(&wide), &description).unwrap(), 5_000_000_000);

    let mut double = Document::new();
    double.insert("ok", 1_i32);
    double.insert("n", 42.0);
    assert_eq!(count_op.handle_response(&reply(&double), &description).unwrap(), 42);

    let mut fraction = Document::new();
    fraction.insert("ok", 1_i32);
    fraction.insert("n", 42.5);
    assert!(count_op.handle_response(&reply(&fraction), &description).is_err());

    let mut negative = Document::new();
    negative.insert("ok", 1_i32);
    negative.insert("n", -1_i32);
    assert!(count_op.handle_response(&reply(&negative), &description).is_err());
}

#[test]
fn count_handle_error_treats_missing_namespace_as_zero() {
    let count_op = Count::empty();
    let missing = Error::new(
        ErrorKind::Command(CommandError {
            code: 26,
            code_name: "NamespaceNotFound".to_string(),
            message: "ns not found".to_string(),
        }),
        None,
    );
    assert_eq!(count_op.handle_error(missing).unwrap(), 0);

    let other = Error::new(
        ErrorKind::Command(CommandError {
            code: 11600,
            code_name: "InterruptedAtShutdown".to_string(),
            message: "shutting down".to_string(),
        }),
        Some(vec!["RetryableWriteError".to_string()]),
    );
    let handed_on = count_op.handle_error(other).unwrap_err();
    match handed_on.kind() {
        ErrorKind::Command(e) => {
            assert_eq!(e.code, 11600);
            assert_eq!(e.message, "shutting down");
        }
        other => panic!("unexpected kind {:?}", other),
    }
    assert!(handed_on.contains_label("RetryableWriteError"));
}

#[test]
fn count_hooks() {
    let count_op = Count::empty();
    let description = StreamDescription::new_testing();
    assert_eq!(count_op.name(), "count");
    assert_eq!(count_op.retryability(), Retryability::Read);
    assert!(count_op.supports_read_concern(&description));
    assert!(count_op.supports_sessions());
    assert!(count_op.is_acknowledged());
    assert!(count_op.write_concern().is_none());
    assert!(count_op.pinned_connection().is_none());
    assert_eq!(count_op.extract_at_cluster_time(&Document::new()).unwrap(), None);
}
