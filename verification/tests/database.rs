use bson::{Bson, Document};
use mongodb_core::change_stream::{AggregateTarget, ChangeStreamOptions};
use mongodb_core::client::{Client, ClientOptions};
use mongodb_core::concern::{Acknowledgment, ReadConcern, ReadConcernLevel, WriteConcern};
use mongodb_core::db::{
    collection_name, collection_names, Collection, CollectionOptions, Database, DatabaseOptions,
};
use mongodb_core::error::ErrorKind;
use mongodb_core::operation::aggregate::AggregateOptions;
use mongodb_core::operation::create::CreateCollectionOptions;
use mongodb_core::operation::drop_database::DropDatabaseOptions;
use mongodb_core::operation::list_collections::ListCollectionsOptions;
use mongodb_core::operation::{Operation, PinnedConnectionHandle};
use mongodb_core::selection_criteria::{ReadPreference, SelectionCriteria};
use mongodb_core::session::{Transaction, TransactionOptions, TransactionState};
use mongodb_core::stream_description::StreamDescription;

fn majority() -> WriteConcern {
    WriteConcern { w: Some(Acknowledgment::Majority), w_timeout: None, journal: None }
}

fn nodes(n: u32) -> WriteConcern {
    WriteConcern { w: Some(Acknowledgment::Nodes(n)), w_timeout: None, journal: None }
}

fn secondary() -> SelectionCriteria {
    SelectionCriteria::ReadPreference(ReadPreference::Secondary)
}

fn nearest() -> SelectionCriteria {
    SelectionCriteria::ReadPreference(ReadPreference::Nearest)
}

fn bare_client() -> Client {
    Client::new(ClientOptions { selection_criteria: None, read_concern: None, write_concern: None })
}

fn full_client() -> Client {
    Client::new(ClientOptions {
        selection_criteria: Some(secondary()),
        read_concern: Some(ReadConcern::new(ReadConcernLevel::Majority)),
        write_concern: Some(majority()),
    })
}

fn in_transaction(criteria: Option<SelectionCriteria>) -> Transaction {
    Transaction {
        state: TransactionState::InProgress,
        options: Some(TransactionOptions {
            read_concern: None,
            write_concern: None,
            selection_criteria: criteria,
            max_commit_time: None,
        }),
    }
}

fn w_of(concern: Option<&WriteConcern>) -> Option<String> {
    concern.and_then(|c| c.w.as_ref()).map(|w| match w {
        Acknowledgment::Nodes(n) => n.to_string(),
        Acknowledgment::Majority => "majority".to_string(),
        Acknowledgment::Custom(s) => s.clone(),
    })
}

#[test]
fn database_inherits_what_options_leave_open() {
    let db = Database::new(full_client(), "items", None);
    assert_eq!(db.name(), "items");
    assert_eq!(db.selection_criteria(), Some(&secondary()));
    assert_eq!(db.read_concern().map(|c| c.level.as_str()), Some("majority"));
    assert_eq!(w_of(db.write_concern()), Some("majority".to_string()));
    assert_eq!(db.client().selection_criteria(), Some(&secondary()));

    let options = DatabaseOptions {
        selection_criteria: Some(nearest()),
        read_concern: None,
        write_concern: Some(nodes(2)),
    };
    let db = Database::new(full_client(), "items", Some(options));
    assert_eq!(db.selection_criteria(), Some(&nearest()));
    assert_eq!(db.read_concern().map(|c| c.level.as_str()), Some("majority"));
    assert_eq!(w_of(db.write_concern()), Some("2".to_string()));

    let db = Database::new(bare_client(), "items", None);
    assert!(db.selection_criteria().is_none());
    assert!(db.read_concern().is_none());
    assert!(db.write_concern().is_none());
    assert_eq!(db.clone().name(), "items");
}

#[test]
fn collection_inherits_from_database() {
    let db = Database::new(full_client(), "items", None);
    let coll: Collection<Document> = db.collection("things");
    assert_eq!(coll.name(), "things");
    let ns = coll.namespace();
    assert_eq!((ns.db.as_str(), ns.coll.as_str()), ("items", "things"));
    assert_eq!(coll.selection_criteria(), Some(&secondary()));
    assert_eq!(coll.read_concern().map(|c| c.level.as_str()), Some("majority"));
    assert_eq!(w_of(coll.write_concern()), Some("majority".to_string()));

    let options = CollectionOptions {
        selection_criteria: None,
        read_concern: Some(ReadConcern::new(ReadConcernLevel::Local)),
        write_concern: None,
    };
    let coll: Collection<Document> = db.collection_with_options("things", options);
    assert_eq!(coll.selection_criteria(), Some(&secondary()));
    assert_eq!(coll.read_concern().map(|c| c.level.as_str()), Some("local"));
    assert_eq!(w_of(coll.write_concern()), Some("majority".to_string()));
}

#[test]
fn drop_operation_resolves_write_concern() {
    let db = Database::new(full_client(), "items", None);
    let mut op = db.drop_operation(None);
    assert_eq!(w_of(op.write_concern()), Some("majority".to_string()));
    let cmd = op.build(&StreamDescription::new_testing()).unwrap();
    assert_eq!(cmd.name, "dropDatabase");
    assert_eq!(cmd.target_db, "items");
    let mut concern = Document::new();
    concern.insert("w", "majority");
    let mut expected = Document::new();
    expected.insert("dropDatabase", 1_i32);
    expected.insert("writeConcern", concern);
    assert_eq!(cmd.body, expected);
    assert_eq!(cmd.body.keys().collect::<Vec<_>>(), vec!["dropDatabase", "writeConcern"]);

    let op = db.drop_operation(Some(DropDatabaseOptions { write_concern: Some(nodes(0)) }));
    assert_eq!(w_of(op.write_concern()), Some("0".to_string()));
    assert!(!op.is_acknowledged());

    let bare = Database::new(bare_client(), "items", None);
    let mut op = bare.drop_operation(None);
    assert!(op.options.is_none());
    assert!(op.is_acknowledged());
    let cmd = op.build(&StreamDescription::new_testing()).unwrap();
    let mut expected = Document::new();
    expected.insert("dropDatabase", 1_i32);
    assert_eq!(cmd.body, expected);
}

#[test]
fn drop_operation_drops_empty_write_concern() {
    let bare = Database::new(bare_client(), "items", None);
    let empty = WriteConcern { w: None, w_timeout: None, journal: None };
    let mut op = bare.drop_operation(Some(DropDatabaseOptions { write_concern: Some(empty) }));
    assert!(op.write_concern().is_some());
    let cmd = op.build(&StreamDescription::new_testing()).unwrap();
    let mut expected = Document::new();
    expected.insert("dropDatabase", 1_i32);
    assert_eq!(cmd.body, expected);
    assert!(op.write_concern().is_none());
}

#[test]
fn acknowledging_replies_are_checked_for_write_concern_errors() {
    let bare = Database::new(bare_client(), "items", None);
    let op = bare.drop_operation(None);
    let description = StreamDescription::new_testing();
    let mut ok = Document::new();
    ok.insert("ok", 1_i32);
    let reply = mongodb_core::operation::response::RawCommandResponse::with_document(&ok).unwrap();
    assert!(op.handle_response(&reply, &description).is_ok());

    let mut error = Document::new();
    error.insert("code", 64_i32);
    error.insert("errmsg", "timed out");
    ok.insert("writeConcernError", error);
    let reply = mongodb_core::operation::response::RawCommandResponse::with_document(&ok).unwrap();
    let failure = op.handle_response(&reply, &description).unwrap_err();
    assert!(matches!(failure.kind(), ErrorKind::Write(_)));

    let create = bare.create_collection_operation("c", None);
    assert!(matches!(
        create.handle_response(&reply, &description).unwrap_err().kind(),
        ErrorKind::Write(_)
    ));
}

#[test]
fn create_collection_operation_builds() {
    let db = Database::new(full_client(), "items", None);
    let options = CreateCollectionOptions {
        capped: Some(true),
        size: Some(4096),
        max: Some(10),
        write_concern: None,
    };
    let mut op = db.create_collection_operation("things", Some(options));
    let cmd = op.build(&StreamDescription::new_testing()).unwrap();
    assert_eq!(cmd.name, "create");
    assert_eq!(cmd.target_db, "items");
    assert_eq!(
        cmd.body.keys().collect::<Vec<_>>(),
        vec!["create", "capped", "size", "max", "writeConcern"]
    );
    assert_eq!(cmd.body.get_str("create"), Ok("things"));
    assert_eq!(cmd.body.get_bool("capped"), Ok(true));
    assert_eq!(cmd.body.get_i64("size"), Ok(4096));
    assert_eq!(cmd.body.get_i64("max"), Ok(10));
    assert_eq!(cmd.body.get_document("writeConcern").unwrap().get_str("w"), Ok("majority"));

    let bare = Database::new(bare_client(), "items", None);
    let mut op = bare.create_collection_operation("things", None);
    let cmd = op.build(&StreamDescription::new_testing()).unwrap();
    let mut expected = Document::new();
    expected.insert("create", "things");
    assert_eq!(cmd.body, expected);

    let too_big = CreateCollectionOptions {
        capped: None,
        size: Some(u64::MAX),
        max: None,
        write_concern: None,
    };
    let mut op = bare.create_collection_operation("things", Some(too_big));
    assert!(matches!(
        op.build(&StreamDescription::new_testing()).unwrap_err().kind(),
        ErrorKind::InvalidArgument { .. }
    ));
}

#[test]
fn list_collections_operations() {
    let db = Database::new(bare_client(), "items", None);
    let mut filter = Document::new();
    filter.insert("name", "x");
    let op = db.list_collections_operation(
        Some(filter.clone()),
        Some(ListCollectionsOptions { batch_size: Some(4) }),
    );
    assert_eq!(op.db, "items");
    assert_eq!(op.filter, Some(filter.clone()));
    assert!(!op.name_only);
    assert_eq!(op.options.as_ref().and_then(|o| o.batch_size), Some(4));

    let op = db.list_collection_names_operation(Some(filter.clone()));
    assert_eq!(op.db, "items");
    assert_eq!(op.filter, Some(filter));
    assert!(op.name_only);
    assert!(op.options.is_none());
}

#[test]
fn collection_names_are_read_in_order() {
    let mut a = Document::new();
    a.insert("name", "a");
    a.insert("type", "collection");
    let mut b = Document::new();
    b.insert("type", "view");
    b.insert("name", "b");
    assert_eq!(collection_names(&vec![a.clone(), b.clone()]).unwrap(), vec!["a", "b"]);
    assert_eq!(collection_names(&vec![]).unwrap(), Vec::<String>::new());

    let mut nameless = Document::new();
    nameless.insert("type", "collection");
    let error = collection_names(&vec![a.clone(), nameless, b]).unwrap_err();
    match error.kind() {
        ErrorKind::InvalidResponse { message } => {
            assert_eq!(message, "Expected name field in server response, but there was none.")
        }
        other => panic!("unexpected kind {:?}", other),
    }

    let mut numbered = Document::new();
    numbered.insert("name", 5_i32);
    assert!(collection_names(&vec![numbered.clone()]).is_err());

    assert_eq!(collection_name(&a).unwrap(), "a");
    let error = collection_name(&numbered).unwrap_err();
    match error.kind() {
        ErrorKind::InvalidResponse { message } => {
            assert_eq!(message, "Expected name field in server response, but there was none.")
        }
        other => panic!("unexpected kind {:?}", other),
    }
    assert!(error.labels().is_empty());
}

#[test]
fn run_command_names_the_command_by_its_first_key() {
    let db = Database::new(full_client(), "items", None);
    let mut command = Document::new();
    command.insert("ping", 1_i32);
    command.insert("comment", "hi");
    let pinned = PinnedConnectionHandle { id: 4 };
    let mut op = db.run_command_operation(command.clone(), Some(nearest()), Some(pinned));
    assert_eq!(op.selection_criteria(), Some(nearest()));
    assert_eq!(op.pinned_connection(), Some(pinned));
    assert!(op.supports_sessions());
    assert!(op.write_concern().is_none());
    assert_eq!(op.name(), "$genericRunCommand");
    let cmd = op.build(&StreamDescription::new_testing()).unwrap();
    assert_eq!(cmd.name, "ping");
    assert_eq!(cmd.target_db, "items");
    assert_eq!(cmd.body, command);
    assert!(cmd.read_concern.is_none());

    let mut empty = db.run_command_operation(Document::new(), None, None);
    assert!(!empty.supports_sessions());
    let error = empty.build(&StreamDescription::new_testing()).unwrap_err();
    match error.kind() {
        ErrorKind::InvalidArgument { message } => {
            assert_eq!(message, "an empty document cannot be passed to a run_command operation")
        }
        other => panic!("unexpected kind {:?}", other),
    }

    let mut nameless = Document::new();
    nameless.insert("", 1_i32);
    let mut op = db.run_command_operation(nameless, None, None);
    assert!(matches!(
        op.build(&StreamDescription::new_testing()).unwrap_err().kind(),
        ErrorKind::InvalidArgument { .. }
    ));

    let mut kill = Document::new();
    kill.insert("killCursors", "coll");
    assert!(!db.run_command_operation(kill, None, None).supports_sessions());
}

#[test]
fn run_command_hands_the_reply_back() {
    let db = Database::new(bare_client(), "items", None);
    let mut command = Document::new();
    command.insert("ping", 1_i32);
    let op = db.run_command_operation(command, None, None);
    let mut reply = Document::new();
    reply.insert("ok", 1_i32);
    reply.insert("atClusterTime", bson::Timestamp { time: 3, increment: 4 });
    let raw = mongodb_core::operation::response::RawCommandResponse::with_document(&reply).unwrap();
    assert_eq!(op.handle_response(&raw, &StreamDescription::new_testing()).unwrap(), reply);
    assert_eq!(
        op.extract_at_cluster_time(&reply).unwrap(),
        Some(mongodb_core::operation::response::Timestamp { time: 3, increment: 4 })
    );
    assert_eq!(op.extract_at_cluster_time(&Document::new()).unwrap(), None);
}

#[test]
fn run_command_in_transaction_must_not_set_read_concern() {
    let db = Database::new(full_client(), "items", None);
    let mut command = Document::new();
    command.insert("find", "coll");
    command.insert("readConcern", Document::new());

    for state in [TransactionState::Starting, TransactionState::InProgress] {
        let transaction = Transaction { state, options: None };
        let error = db.run_command_in_session(command.clone(), None, &transaction).unwrap_err();
        match error.kind() {
            ErrorKind::InvalidArgument { message } => {
                assert_eq!(message, "Cannot set read concern after starting a transaction")
            }
            other => panic!("unexpected kind {:?}", other),
        }
    }
    for state in [TransactionState::Idle, TransactionState::Committed, TransactionState::Aborted] {
        let transaction = Transaction { state, options: None };
        let op = db.run_command_in_session(command.clone(), None, &transaction).unwrap();
        assert_eq!(op.command, command);
        assert!(op.selection_criteria.is_none());
    }
    assert_eq!(Transaction::new().state, TransactionState::Idle);
}

#[test]
fn run_command_in_transaction_inherits_its_selection_criteria() {
    let db = Database::new(full_client(), "items", None);
    let mut command = Document::new();
    command.insert("find", "coll");

    let transaction = in_transaction(Some(nearest()));
    let op = db.run_command_in_session(command.clone(), None, &transaction).unwrap();
    assert_eq!(op.selection_criteria, Some(nearest()));
    assert!(op.pinned_connection.is_none());
    assert_eq!(op.db, "items");

    let op = db.run_command_in_session(command.clone(), Some(secondary()), &transaction).unwrap();
    assert_eq!(op.selection_criteria, Some(secondary()));

    let op = db.run_command_in_session(command.clone(), None, &in_transaction(None)).unwrap();
    assert!(op.selection_criteria.is_none());

    let idle = Transaction {
        state: TransactionState::Committed,
        options: in_transaction(Some(nearest())).options,
    };
    let op = db.run_command_in_session(command, None, &idle).unwrap();
    assert!(op.selection_criteria.is_none());
}

fn stage(name: &str) -> Document {
    let mut stage = Document::new();
    stage.insert(name, "x");
    stage
}

#[test]
fn aggregate_operation_resolves_and_builds() {
    let db = Database::new(full_client(), "items", None);
    let options = AggregateOptions {
        allow_disk_use: Some(true),
        batch_size: Some(7),
        max_await_time: None,
        max_time: Some(std::time::Duration::from_millis(40)),
        read_concern: None,
        selection_criteria: Some(nearest()),
        write_concern: None,
    };
    let mut op = db.aggregate_operation(vec![stage("$match")], Some(options));
    assert!(matches!(op.target, AggregateTarget::Database(ref name) if name == "items"));
    assert_eq!(op.selection_criteria(), Some(nearest()));
    assert_eq!(w_of(op.write_concern()), Some("majority".to_string()));
    assert!(!op.is_out_or_merge());
    assert_eq!(op.retryability(), mongodb_core::operation::Retryability::Read);
    assert!(op.supports_read_concern(&StreamDescription::new_testing()));

    let cmd = op.build(&StreamDescription::new_testing()).unwrap();
    assert_eq!(cmd.name, "aggregate");
    assert_eq!(cmd.target_db, "items");
    assert_eq!(cmd.read_concern.as_ref().map(|c| c.level.as_str()), Some("majority"));
    assert_eq!(
        cmd.body.keys().collect::<Vec<_>>(),
        vec!["aggregate", "pipeline", "cursor", "allowDiskUse", "maxTimeMS", "writeConcern"]
    );
    assert_eq!(cmd.body.get_i32("aggregate"), Ok(1));
    assert_eq!(cmd.body.get_array("pipeline"), Ok(&vec![Bson::Document(stage("$match"))]));
    assert_eq!(cmd.body.get_document("cursor").unwrap().get_i32("batchSize"), Ok(7));
    assert_eq!(cmd.body.get_bool("allowDiskUse"), Ok(true));
    assert_eq!(cmd.body.get_i32("maxTimeMS"), Ok(40));

    let bare = Database::new(bare_client(), "items", None);
    let mut op = bare.aggregate_operation(vec![], None);
    assert!(op.options.is_none());
    let cmd = op.build(&StreamDescription::new_testing()).unwrap();
    let mut expected = Document::new();
    expected.insert("aggregate", 1_i32);
    expected.insert("pipeline", Vec::<Bson>::new());
    expected.insert("cursor", Document::new());
    assert_eq!(cmd.body, expected);
}

#[test]
fn aggregate_that_writes_out_sends_no_batch_size() {
    let bare = Database::new(bare_client(), "items", None);
    let mut options = AggregateOptions::new();
    options.batch_size = Some(7);
    let mut op = bare.aggregate_operation(vec![stage("$match"), stage("$out")], Some(options));
    assert!(op.is_out_or_merge());
    assert_eq!(op.retryability(), mongodb_core::operation::Retryability::Never);
    let cmd = op.build(&StreamDescription::new_testing()).unwrap();
    assert_eq!(cmd.body.get_document("cursor"), Ok(&Document::new()));
    assert_eq!(cmd.body.keys().collect::<Vec<_>>(), vec!["aggregate", "pipeline", "cursor"]);

    let op = bare.aggregate_operation(vec![stage("$merge")], None);
    assert!(op.is_out_or_merge());
    let op = bare.aggregate_operation(vec![stage("$out"), stage("$match")], None);
    assert!(!op.is_out_or_merge());
    let op = bare.aggregate_operation(vec![Document::new()], None);
    assert!(!op.is_out_or_merge());
}

#[test]
fn aggregate_reply_opens_a_cursor() {
    let bare = Database::new(bare_client(), "items", None);
    let mut options = AggregateOptions::new();
    options.batch_size = Some(7);
    options.max_await_time = Some(std::time::Duration::from_millis(5));
    let op = bare.aggregate_operation(vec![stage("$out")], Some(options));

    let mut cursor = Document::new();
    cursor.insert("id", 9_i64);
    cursor.insert("ns", "items.out");
    cursor.insert("firstBatch", vec![Bson::Document(stage("found"))]);
    let mut reply = Document::new();
    reply.insert("ok", 1_i32);
    reply.insert("cursor", cursor);
    let source = mongodb_core::stream_description::ServerAddress {
        host: "elsewhere".to_string(),
        port: Some(1234),
    };
    let raw = mongodb_core::operation::response::RawCommandResponse::new(
        source.clone(),
        bson::to_vec(&reply).unwrap(),
    );
    let spec = op.handle_response(&raw, &StreamDescription::new_testing()).unwrap();
    assert!(spec.address().same_as(&source));
    assert_eq!(spec.id(), 9);
    assert_eq!(spec.batch_size(), Some(7));
    assert_eq!(spec.max_time(), Some(std::time::Duration::from_millis(5)));
    assert_eq!(spec.initial_buffer, vec![stage("found")]);

    let mut error = Document::new();
    error.insert("code", 64_i32);
    error.insert("errmsg", "timed out");
    reply.insert("writeConcernError", error);
    let raw = mongodb_core::operation::response::RawCommandResponse::new(
        source.clone(),
        bson::to_vec(&reply).unwrap(),
    );
    assert!(matches!(
        op.handle_response(&raw, &StreamDescription::new_testing()).unwrap_err().kind(),
        ErrorKind::Write(_)
    ));

    // an aggregation that only reads is not failed by a write-concern error
    let reads = bare.aggregate_operation(vec![stage("$match")], None);
    assert!(reads.handle_response(&raw, &StreamDescription::new_testing()).is_ok());

    let mut no_cursor = Document::new();
    no_cursor.insert("ok", 1_i32);
    let raw = mongodb_core::operation::response::RawCommandResponse::with_document(&no_cursor)
        .unwrap();
    assert!(matches!(
        reads.handle_response(&raw, &StreamDescription::new_testing()).unwrap_err().kind(),
        ErrorKind::InvalidResponse { .. }
    ));
}

#[test]
fn watch_resolves_read_concern_and_selection_criteria() {
    let db = Database::new(full_client(), "items", None);
    let data = db.watch(vec![stage("$match")], None);
    assert!(matches!(data.target, AggregateTarget::Database(ref name) if name == "items"));
    assert_eq!(data.pipeline, vec![stage("$match")]);
    assert!(!data.resume_attempted);
    assert!(!data.document_returned);
    let options = data.options.expect("options expected");
    assert_eq!(options.read_concern.map(|c| c.level.as_str().to_string()), Some("majority".into()));
    assert_eq!(options.selection_criteria, Some(secondary()));
    assert!(options.resume_after.is_none());

    let mut given = ChangeStreamOptions::new();
    given.selection_criteria = Some(nearest());
    given.batch_size = Some(3);
    let data = db.watch(vec![], Some(given));
    let options = data.options.expect("options expected");
    assert_eq!(options.selection_criteria, Some(nearest()));
    assert_eq!(options.batch_size, Some(3));
    assert!(options.read_concern.is_some());

    let bare = Database::new(bare_client(), "items", None);
    assert!(bare.watch(vec![], None).options.is_none());
}

#[test]
fn watch_in_transaction_must_not_set_read_concern() {
    let db = Database::new(full_client(), "items", None);
    let mut given = ChangeStreamOptions::new();
    given.read_concern = Some(ReadConcern::new(ReadConcernLevel::Local));
    let error = db
        .watch_with_session(vec![], Some(given), &in_transaction(None))
        .unwrap_err();
    assert!(matches!(error.kind(), ErrorKind::InvalidArgument { .. }));

    let data = db.watch_with_session(vec![], None, &in_transaction(Some(nearest()))).unwrap();
    let options = data.options.expect("options expected");
    assert!(options.read_concern.is_none());
    assert_eq!(options.selection_criteria, Some(nearest()));

    let mut given = ChangeStreamOptions::new();
    given.read_concern = Some(ReadConcern::new(ReadConcernLevel::Local));
    let data = db.watch_with_session(vec![], Some(given), &Transaction::new()).unwrap();
    let options = data.options.expect("options expected");
    assert_eq!(options.read_concern.map(|c| c.level.as_str().to_string()), Some("local".into()));
    assert_eq!(options.selection_criteria, Some(secondary()));
}
