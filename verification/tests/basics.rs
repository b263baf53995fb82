use std::time::Duration;

use bson::{Bson, Document};
use mongodb_core::concern::{
    remove_empty_write_concern, Acknowledgment, ReadConcern, ReadConcernLevel, WriteConcern,
};
use mongodb_core::document::doc_single;
use mongodb_core::error::{
    duplicate_strings, duplicate_write_errors, BulkWriteError, CommandError, Error, ErrorKind,
    WriteConcernError,
};
use mongodb_core::field::{
    has_field, i32_field, int_field, optional_document_field, optional_text_field,
    optional_texts_field, text_field, texts_in, timestamp_field, u64_field,
};
use mongodb_core::namespace::Namespace;
use mongodb_core::selection_criteria::{ReadPreference, SelectionCriteria};
use mongodb_core::stream_description::{
    ServerAddress, StreamDescription, SERVER_4_2_0_WIRE_VERSION,
};
use mongodb_core::time::{duration_element, millis_element};

#[test]
fn namespace_parses_at_the_first_dot() {
    let ns = Namespace::parse("db.coll").unwrap();
    assert_eq!((ns.db.as_str(), ns.coll.as_str()), ("db", "coll"));
    let ns = Namespace::parse("db.system.views").unwrap();
    assert_eq!((ns.db.as_str(), ns.coll.as_str()), ("db", "system.views"));
    let ns = Namespace::parse(".coll").unwrap();
    assert_eq!((ns.db.as_str(), ns.coll.as_str()), ("", "coll"));
    let ns = Namespace::parse("d..").unwrap();
    assert_eq!((ns.db.as_str(), ns.coll.as_str()), ("d", "."));
    assert!(Namespace::parse("db").is_none());
    assert!(Namespace::parse("db.").is_none());
    assert!(Namespace::parse("").is_none());
    assert!(Namespace::parse(".").is_none());
}

#[test]
fn namespace_full_name_round_trips() {
    let ns = Namespace::new("db", "a.b");
    assert_eq!(ns.to_full_name(), "db.a.b");
    let again = Namespace::parse(&ns.to_full_name()).unwrap();
    assert_eq!((again.db, again.coll), (ns.db.clone(), ns.coll.clone()));
    let copy = ns.clone();
    assert_eq!((copy.db, copy.coll), ("db".to_string(), "a.b".to_string()));
    let empty = Namespace::empty();
    assert_eq!((empty.db.as_str(), empty.coll.as_str()), ("", ""));
}

#[test]
fn error_labels_are_kept_once_in_order() {
    let labels = vec![
        "b".to_string(),
        "a".to_string(),
        "b".to_string(),
        "c".to_string(),
        "a".to_string(),
    ];
    let error = Error::new(ErrorKind::Internal { message: "x".to_string() }, Some(labels));
    assert_eq!(error.labels(), &vec!["b", "a", "c"]);
    assert!(error.contains_label("a"));
    assert!(!error.contains_label("d"));
    assert!(!error.is_ns_not_found());
    assert!(matches!(error.into_kind(), ErrorKind::Internal { .. }));

    let error = Error::new(ErrorKind::Internal { message: "x".to_string() }, None);
    assert!(error.labels().is_empty());
}

#[test]
fn error_constructors_set_kind_and_message() {
    match Error::invalid_argument("bad").kind() {
        ErrorKind::InvalidArgument { message } => assert_eq!(message, "bad"),
        other => panic!("unexpected kind {:?}", other),
    }
    match Error::invalid_response("odd").kind() {
        ErrorKind::InvalidResponse { message } => assert_eq!(message, "odd"),
        other => panic!("unexpected kind {:?}", other),
    }
    match Error::internal("broken").kind() {
        ErrorKind::Internal { message } => assert_eq!(message, "broken"),
        other => panic!("unexpected kind {:?}", other),
    }
    let missing = Error::new(
        ErrorKind::Command(CommandError {
            code: 26,
            code_name: String::new(),
            message: String::new(),
        }),
        None,
    );
    assert!(missing.is_ns_not_found());
}

#[test]
fn error_parts_are_copied_faithfully() {
    let mut details = Document::new();
    details.insert("why", "because");
    let wc = WriteConcernError {
        code: 1,
        code_name: "n".to_string(),
        message: "m".to_string(),
        details: Some(details.clone()),
    };
    let copy = wc.duplicate();
    assert_eq!((copy.code, copy.code_name, copy.message, copy.details),
        (1, "n".to_string(), "m".to_string(), Some(details.clone())));

    let errors = vec![
        BulkWriteError {
            index: 3,
            code: 2,
            code_name: Some("x".to_string()),
            message: "y".to_string(),
            details: None,
        },
        BulkWriteError {
            index: 4,
            code: 5,
            code_name: None,
            message: "z".to_string(),
            details: Some(details),
        },
    ];
    let copies = duplicate_write_errors(&errors);
    assert_eq!(copies.len(), 2);
    assert_eq!(copies[0].index, 3);
    assert_eq!(copies[0].code_name.as_deref(), Some("x"));
    assert_eq!(copies[1].index, 4);
    assert_eq!(copies[1].message, "z");
    assert!(copies[1].details.is_some());
    assert_eq!(duplicate_strings(&vec!["a".to_string(), "b".to_string()]), vec!["a", "b"]);
}

#[test]
fn write_concern_acknowledgment() {
    let none = WriteConcern { w: None, w_timeout: None, journal: None };
    assert!(none.is_acknowledged());
    assert!(none.is_empty());
    let zero = WriteConcern { w: Some(Acknowledgment::Nodes(0)), w_timeout: None, journal: None };
    assert!(!zero.is_acknowledged());
    assert!(!zero.is_empty());
    let journaled =
        WriteConcern { w: Some(Acknowledgment::Nodes(0)), w_timeout: None, journal: Some(true) };
    assert!(journaled.is_acknowledged());
    let unjournaled =
        WriteConcern { w: Some(Acknowledgment::Nodes(0)), w_timeout: None, journal: Some(false) };
    assert!(!unjournaled.is_acknowledged());
    let majority = WriteConcern { w: Some(Acknowledgment::Majority), w_timeout: None, journal: None };
    assert!(majority.is_acknowledged());
    let one = WriteConcern { w: Some(Acknowledgment::Nodes(1)), w_timeout: None, journal: None };
    assert!(one.is_acknowledged());
}

#[test]
fn write_concern_document() {
    let concern = WriteConcern {
        w: Some(Acknowledgment::Majority),
        w_timeout: Some(Duration::from_millis(1500)),
        journal: Some(true),
    };
    let doc = concern.to_document().unwrap();
    assert_eq!(doc.keys().collect::<Vec<_>>(), vec!["w", "wtimeout", "j"]);
    assert_eq!(doc.get_str("w"), Ok("majority"));
    assert_eq!(doc.get_i32("wtimeout"), Ok(1500));
    assert_eq!(doc.get_bool("j"), Ok(true));

    let concern = WriteConcern { w: Some(Acknowledgment::Nodes(3)), w_timeout: None, journal: None };
    let doc = concern.to_document().unwrap();
    assert_eq!(doc.keys().collect::<Vec<_>>(), vec!["w"]);
    assert_eq!(doc.get_i32("w"), Ok(3));

    let concern = WriteConcern {
        w: Some(Acknowledgment::Custom("rack".to_string())),
        w_timeout: None,
        journal: Some(false),
    };
    let doc = concern.to_document().unwrap();
    assert_eq!(doc.get_str("w"), Ok("rack"));
    assert_eq!(doc.get_bool("j"), Ok(false));

    let empty = WriteConcern { w: None, w_timeout: None, journal: None };
    assert_eq!(empty.to_document().unwrap(), Document::new());

    let too_many =
        WriteConcern { w: Some(Acknowledgment::Nodes(u32::MAX)), w_timeout: None, journal: None };
    assert!(matches!(
        too_many.to_document().unwrap_err().kind(),
        ErrorKind::InvalidArgument { .. }
    ));
    let too_long = WriteConcern {
        w: None,
        w_timeout: Some(Duration::from_secs(u64::MAX)),
        journal: None,
    };
    assert!(too_long.to_document().is_err());
}

#[test]
fn empty_write_concern_is_removed() {
    let empty = WriteConcern { w: None, w_timeout: None, journal: None };
    assert!(remove_empty_write_concern(Some(empty)).is_none());
    assert!(remove_empty_write_concern(None).is_none());
    let set = WriteConcern { w: None, w_timeout: None, journal: Some(true) };
    let kept = remove_empty_write_concern(Some(set)).expect("concern should stay");
    assert_eq!(kept.journal, Some(true));
    let copy = kept.clone();
    assert_eq!(copy.journal, Some(true));
    assert!(copy.w.is_none());
}

#[test]
fn read_concern_levels_have_wire_names() {
    assert_eq!(ReadConcernLevel::Local.as_str(), "local");
    assert_eq!(ReadConcernLevel::Majority.as_str(), "majority");
    assert_eq!(ReadConcernLevel::Linearizable.as_str(), "linearizable");
    assert_eq!(ReadConcernLevel::Available.as_str(), "available");
    assert_eq!(ReadConcernLevel::Snapshot.as_str(), "snapshot");
    assert_eq!(ReadConcernLevel::Custom("x".to_string()).as_str(), "x");
    let mut expected = Document::new();
    expected.insert("level", "snapshot");
    assert_eq!(ReadConcern::new(ReadConcernLevel::Snapshot).to_document(), expected);
    assert_eq!(ReadConcern::new(ReadConcernLevel::Majority).clone().level.as_str(), "majority");
}

#[test]
fn milliseconds_take_the_narrowest_integer() {
    assert_eq!(millis_element(0).unwrap(), Bson::Int32(0));
    assert_eq!(millis_element(2).unwrap(), Bson::Int32(2));
    assert_eq!(millis_element(i32::MAX as u128).unwrap(), Bson::Int32(i32::MAX));
    assert_eq!(millis_element(i32::MAX as u128 + 1).unwrap(), Bson::Int64(i32::MAX as i64 + 1));
    assert_eq!(millis_element(i64::MAX as u128).unwrap(), Bson::Int64(i64::MAX));
    assert!(millis_element(i64::MAX as u128 + 1).is_err());
    assert_eq!(duration_element(&Duration::from_micros(2999)).unwrap(), Bson::Int32(2));
    assert_eq!(duration_element(&Duration::from_secs(3)).unwrap(), Bson::Int32(3000));
}

#[test]
fn selection_criteria_primary() {
    assert!(SelectionCriteria::ReadPreference(ReadPreference::Primary).is_read_pref_primary());
    assert!(!SelectionCriteria::ReadPreference(ReadPreference::Nearest).is_read_pref_primary());
    assert!(!SelectionCriteria::ReadPreference(ReadPreference::PrimaryPreferred)
        .is_read_pref_primary());
}

#[test]
fn stream_description_for_trials() {
    let description = StreamDescription::new_testing();
    assert_eq!(description.max_wire_version, Some(SERVER_4_2_0_WIRE_VERSION));
    assert_eq!(description.min_wire_version, Some(8));
    assert!(description.server_address.same_as(&ServerAddress::default()));
    let other = ServerAddress { host: "localhost".to_string(), port: Some(27017) };
    assert!(!other.same_as(&ServerAddress::default()));
    assert!(other.same_as(&other.clone()));
    let elsewhere = ServerAddress { host: "example.com".to_string(), port: Some(27017) };
    assert!(!other.same_as(&elsewhere));
}

#[test]
fn typed_field_access() {
    let mut inner = Document::new();
    inner.insert("x", 1_i32);
    let mut doc = Document::new();
    doc.insert("text", "abc");
    doc.insert("small", 5_i32);
    doc.insert("wide", 5_000_000_000_i64);
    doc.insert("double", -2.0);
    doc.insert("inner", inner.clone());
    doc.insert("list", vec![Bson::String("a".to_string()), Bson::String("b".to_string())]);
    doc.insert("docs", vec![Bson::Document(inner.clone())]);
    doc.insert("mixed", vec![Bson::String("a".to_string()), Bson::Int32(1)]);
    doc.insert("time", bson::Timestamp { time: 1, increment: 2 });

    assert_eq!(text_field(&doc, "text"), Some("abc"));
    assert_eq!(text_field(&doc, "small"), None);
    assert_eq!(text_field(&doc, "absent"), None);
    assert_eq!(int_field(&doc, "small"), Some(5));
    assert_eq!(int_field(&doc, "wide"), Some(5_000_000_000));
    assert_eq!(int_field(&doc, "double"), Some(-2));
    assert_eq!(int_field(&doc, "text"), None);
    assert_eq!(i32_field(&doc, "small"), Some(5));
    assert_eq!(i32_field(&doc, "wide"), None);
    assert_eq!(u64_field(&doc, "double"), None);
    assert_eq!(u64_field(&doc, "wide"), Some(5_000_000_000));
    assert_eq!(timestamp_field(&doc, "time"), Some((1, 2)));
    assert_eq!(timestamp_field(&doc, "small"), None);
    assert!(has_field(&doc, "mixed"));
    assert!(!has_field(&doc, "absent"));

    assert_eq!(optional_text_field(&doc, "text"), Some(Some("abc".to_string())));
    assert_eq!(optional_text_field(&doc, "absent"), Some(None));
    assert_eq!(optional_text_field(&doc, "small"), None);
    assert_eq!(optional_document_field(&doc, "inner"), Some(Some(inner.clone())));
    assert_eq!(optional_document_field(&doc, "absent"), Some(None));
    assert_eq!(optional_document_field(&doc, "text"), None);
    assert_eq!(
        optional_texts_field(&doc, "list"),
        Some(Some(vec!["a".to_string(), "b".to_string()]))
    );
    assert_eq!(optional_texts_field(&doc, "absent"), Some(None));
    assert_eq!(optional_texts_field(&doc, "mixed"), None);
    assert_eq!(optional_texts_field(&doc, "text"), None);

    assert_eq!(texts_in(doc.get_array("mixed").unwrap()), None);
    assert_eq!(
        texts_in(doc.get_array("list").unwrap()),
        Some(vec!["a".to_string(), "b".to_string()])
    );

    let single = doc_single("k", Bson::Int32(9));
    assert_eq!(single.keys().collect::<Vec<_>>(), vec!["k"]);
    assert_eq!(single.get_i32("k"), Ok(9));
}
