use bson::{Bson, Document};
use mongodb_core::change_stream::{
    get_resume_token, watch_aggregate, AggregateTarget, ChangeStream, ChangeStreamData,
    ChangeStreamOptions, PollEvent, ResumeToken, StreamAction,
};
use mongodb_core::operation::Operation;
use mongodb_core::stream_description::StreamDescription;
use mongodb_core::client::{Client, ClientOptions};
use mongodb_core::cursor::BatchValue;
use mongodb_core::error::{Error, ErrorKind};
use mongodb_core::operation::response::Timestamp;

fn client() -> Client {
    Client::new(ClientOptions { selection_criteria: None, read_concern: None, write_concern: None })
}

fn token(data: &str) -> ResumeToken {
    let mut d = Document::new();
    d.insert("_data", data);
    ResumeToken::from_document(d)
}

fn token_value(data: &str) -> Bson {
    let mut d = Document::new();
    d.insert("_data", data);
    Bson::Document(d)
}

fn event(id: &str) -> Document {
    let mut id_doc = Document::new();
    id_doc.insert("_data", id);
    let mut e = Document::new();
    e.insert("_id", id_doc);
    e.insert("operationType", "insert");
    e
}

fn stage() -> Document {
    let mut matcher = Document::new();
    matcher.insert("operationType", "insert");
    let mut stage = Document::new();
    stage.insert("$match", matcher);
    stage
}

fn caller_options() -> ChangeStreamOptions {
    let mut options = ChangeStreamOptions::new();
    options.start_at_operation_time = Some(Timestamp { time: 9, increment: 1 });
    options.batch_size = Some(10);
    options
}

fn stream(options: Option<ChangeStreamOptions>) -> ChangeStream<Document> {
    let data = ChangeStreamData::new(
        vec![stage()],
        client(),
        AggregateTarget::Database("db".to_string()),
        options,
    );
    ChangeStream::new(data, None)
}

fn network_error() -> Error {
    Error::new(
        ErrorKind::InvalidResponse { message: "connection reset".to_string() },
        Some(vec!["ResumableChangeStreamError".to_string()]),
    )
}

fn value_of(t: Option<ResumeToken>) -> Option<Bson> {
    t.map(|t| t.value().clone())
}

#[test]
fn resume_token_of_last_document_is_the_post_batch_token() {
    let batch = BatchValue::Document { doc: event("own"), is_last: true };
    let after = token("after");
    assert_eq!(value_of(get_resume_token(&batch, Some(&after))), Some(token_value("after")));
}

#[test]
fn resume_token_of_last_document_without_post_batch_token_is_its_id() {
    let batch = BatchValue::Document { doc: event("own"), is_last: true };
    assert_eq!(value_of(get_resume_token(&batch, None)), Some(token_value("own")));
}

#[test]
fn resume_token_of_inner_document_is_its_id() {
    let batch = BatchValue::Document { doc: event("own"), is_last: false };
    let after = token("after");
    assert_eq!(value_of(get_resume_token(&batch, Some(&after))), Some(token_value("own")));
}

#[test]
fn resume_token_of_document_without_id_is_none() {
    let mut doc = Document::new();
    doc.insert("operationType", "insert");
    let batch = BatchValue::Document { doc, is_last: false };
    assert!(get_resume_token(&batch, Some(&token("after"))).is_none());
}

#[test]
fn resume_token_of_empty_batch_is_the_post_batch_token_if_any() {
    assert_eq!(
        value_of(get_resume_token(&BatchValue::Empty, Some(&token("after")))),
        Some(token_value("after"))
    );
    assert!(get_resume_token(&BatchValue::Empty, None).is_none());
}

#[test]
fn resume_token_of_exhausted_cursor_is_none() {
    assert!(get_resume_token(&BatchValue::Exhausted, Some(&token("after"))).is_none());
    assert!(get_resume_token(&BatchValue::Exhausted, None).is_none());
}

#[test]
fn empty_batch_and_exhaustion_retain_the_cached_token() {
    let data = ChangeStreamData::new(
        vec![],
        client(),
        AggregateTarget::Database("db".to_string()),
        None,
    );
    let mut s: ChangeStream<Document> = ChangeStream::new(data, Some(token("cached")));
    assert!(s.is_alive());

    let action = s.advance(PollEvent::Success { batch: BatchValue::Empty, batch_token: None });
    assert!(matches!(action, StreamAction::Deliver(BatchValue::Empty)));
    assert_eq!(s.resume_token().map(|t| t.value().clone()), Some(token_value("cached")));

    let action = s.advance(PollEvent::Success {
        batch: BatchValue::Empty,
        batch_token: Some(token("fresh")),
    });
    assert!(matches!(action, StreamAction::Deliver(BatchValue::Empty)));
    assert_eq!(s.resume_token().map(|t| t.value().clone()), Some(token_value("fresh")));

    let action = s.advance(PollEvent::Success {
        batch: BatchValue::Exhausted,
        batch_token: Some(token("ignored")),
    });
    assert!(matches!(action, StreamAction::Deliver(BatchValue::Exhausted)));
    assert_eq!(s.resume_token().map(|t| t.value().clone()), Some(token_value("fresh")));
    assert!(!s.is_alive());
}

#[test]
fn successful_polls_update_the_token() {
    let mut s = stream(None);
    assert!(s.resume_token().is_none());

    let action = s.advance(PollEvent::Success {
        batch: BatchValue::Document { doc: event("one"), is_last: false },
        batch_token: Some(token("after")),
    });
    match action {
        StreamAction::Deliver(BatchValue::Document { doc, is_last }) => {
            assert_eq!(doc, event("one"));
            assert!(!is_last);
        }
        other => panic!("unexpected action {:?}", other),
    }
    assert_eq!(s.resume_token().map(|t| t.value().clone()), Some(token_value("one")));

    s.advance(PollEvent::Success {
        batch: BatchValue::Document { doc: event("two"), is_last: true },
        batch_token: Some(token("after")),
    });
    assert_eq!(s.resume_token().map(|t| t.value().clone()), Some(token_value("after")));
}

#[test]
fn resume_before_any_document_uses_the_callers_start_point() {
    // document_returned = false, resume_attempted = false, resumable failure
    let mut s = stream(Some(caller_options()));
    let action = s.advance(PollEvent::Failure { error: network_error(), resumable: true });
    match action {
        StreamAction::Reissue(request) => {
            assert!(matches!(request.target, AggregateTarget::Database(ref db) if db == "db"));
            assert_eq!(request.pipeline, vec![stage()]);
            let options = request.options.expect("options expected");
            assert!(options.resume_after.is_none());
            assert!(options.start_after.is_none());
            assert_eq!(options.start_at_operation_time, Some(Timestamp { time: 9, increment: 1 }));
            assert_eq!(options.batch_size, Some(10));
        }
        other => panic!("unexpected action {:?}", other),
    }
    assert!(s.is_alive());
}

#[test]
fn resume_before_any_document_ignores_a_token_from_an_empty_batch() {
    let mut s = stream(Some(caller_options()));
    s.advance(PollEvent::Success { batch: BatchValue::Empty, batch_token: Some(token("pb")) });
    let action = s.advance(PollEvent::Failure { error: network_error(), resumable: true });
    match action {
        StreamAction::Reissue(request) => {
            let options = request.options.expect("options expected");
            assert!(options.resume_after.is_none());
            assert_eq!(options.start_at_operation_time, Some(Timestamp { time: 9, increment: 1 }));
        }
        other => panic!("unexpected action {:?}", other),
    }
}

#[test]
fn resume_without_options_before_any_document_has_no_options() {
    let mut s = stream(None);
    match s.advance(PollEvent::Failure { error: network_error(), resumable: true }) {
        StreamAction::Reissue(request) => assert!(request.options.is_none()),
        other => panic!("unexpected action {:?}", other),
    }
}

#[test]
fn resume_after_a_document_resumes_after_the_cached_token() {
    let mut s = stream(Some(caller_options()));
    s.advance(PollEvent::Success {
        batch: BatchValue::Document { doc: event("seen"), is_last: false },
        batch_token: None,
    });
    let action = s.advance(PollEvent::Failure { error: network_error(), resumable: true });
    match action {
        StreamAction::Reissue(request) => {
            let options = request.options.expect("options expected");
            assert_eq!(
                options.resume_after.map(|t| t.value().clone()),
                Some(token_value("seen"))
            );
            assert!(options.start_after.is_none());
            assert!(options.start_at_operation_time.is_none());
            assert_eq!(options.batch_size, Some(10));
        }
        other => panic!("unexpected action {:?}", other),
    }
}

#[test]
fn second_consecutive_failure_is_handed_on() {
    let mut s = stream(None);
    let first = s.advance(PollEvent::Failure { error: network_error(), resumable: true });
    assert!(matches!(first, StreamAction::Reissue(_)));
    let second = s.advance(PollEvent::Failure { error: network_error(), resumable: true });
    match second {
        StreamAction::Fail(error) => {
            match error.kind() {
                ErrorKind::InvalidResponse { message } => assert_eq!(message, "connection reset"),
                other => panic!("unexpected kind {:?}", other),
            }
            assert!(error.contains_label("ResumableChangeStreamError"));
        }
        other => panic!("unexpected action {:?}", other),
    }
    assert!(!s.is_alive());

    // dead for good
    let third = s.advance(PollEvent::Failure { error: network_error(), resumable: true });
    assert!(matches!(third, StreamAction::Fail(_)));
    let fourth = s.advance(PollEvent::Success {
        batch: BatchValue::Document { doc: event("late"), is_last: true },
        batch_token: Some(token("late")),
    });
    assert!(matches!(fourth, StreamAction::Deliver(BatchValue::Exhausted)));
    assert!(s.resume_token().is_none());
}

#[test]
fn success_after_a_resume_allows_another_resume() {
    let mut s = stream(None);
    assert!(matches!(
        s.advance(PollEvent::Failure { error: network_error(), resumable: true }),
        StreamAction::Reissue(_)
    ));
    s.advance(PollEvent::Success { batch: BatchValue::Empty, batch_token: None });
    assert!(matches!(
        s.advance(PollEvent::Failure { error: network_error(), resumable: true }),
        StreamAction::Reissue(_)
    ));
}

#[test]
fn non_resumable_failure_kills_the_stream() {
    let mut s = stream(None);
    let action = s.advance(PollEvent::Failure { error: network_error(), resumable: false });
    assert!(matches!(action, StreamAction::Fail(_)));
    assert!(!s.is_alive());
}

#[test]
fn stream_keeps_its_client() {
    let shared = Client::new(ClientOptions {
        selection_criteria: None,
        read_concern: Some(mongodb_core::concern::ReadConcern::new(
            mongodb_core::concern::ReadConcernLevel::Majority,
        )),
        write_concern: None,
    });
    let data = ChangeStreamData::new(
        vec![],
        shared.clone(),
        AggregateTarget::Database("db".to_string()),
        None,
    );
    let mut s: ChangeStream<Document> = ChangeStream::new(data, None);
    let level = |s: &Client| s.read_concern().map(|c| c.level.as_str().to_string());
    assert_eq!(level(s.shared_client()), Some("majority".to_string()));
    s.advance(PollEvent::Failure { error: network_error(), resumable: true });
    s.advance(PollEvent::Success { batch: BatchValue::Empty, batch_token: None });
    assert_eq!(level(s.shared_client()), Some("majority".to_string()));
    let typed: ChangeStream<String> = s.with_type();
    assert_eq!(level(typed.shared_client()), Some("majority".to_string()));
}

#[test]
fn with_type_keeps_the_state() {
    let mut s = stream(None);
    s.advance(PollEvent::Success {
        batch: BatchValue::Document { doc: event("one"), is_last: false },
        batch_token: None,
    });
    let mut typed: ChangeStream<String> = s.with_type();
    assert!(typed.is_alive());
    assert_eq!(typed.resume_token().map(|t| t.value().clone()), Some(token_value("one")));
    match typed.advance(PollEvent::Failure { error: network_error(), resumable: true }) {
        StreamAction::Reissue(request) => {
            assert_eq!(
                request.options.and_then(|o| o.resume_after).map(|t| t.value().clone()),
                Some(token_value("one"))
            );
        }
        other => panic!("unexpected action {:?}", other),
    }
}

#[test]
fn resume_token_copies_are_equal_values() {
    let t = ResumeToken::new(Bson::Int32(5));
    assert_eq!(t.clone().value(), &Bson::Int32(5));
    assert_eq!(t.value(), &Bson::Int32(5));
}

#[test]
fn reissued_aggregation_starts_with_the_change_stream_stage() {
    let mut s = stream(Some(caller_options()));
    s.advance(PollEvent::Success {
        batch: BatchValue::Document { doc: event("seen"), is_last: false },
        batch_token: None,
    });
    let request = match s.advance(PollEvent::Failure { error: network_error(), resumable: true }) {
        StreamAction::Reissue(request) => request,
        other => panic!("unexpected action {:?}", other),
    };
    let mut aggregate = request.into_aggregate();
    assert_eq!(aggregate.pipeline.len(), 2);
    let mut start = Document::new();
    start.insert("resumeAfter", token_value("seen"));
    let mut first = Document::new();
    first.insert("$changeStream", start);
    assert_eq!(aggregate.pipeline[0], first);
    assert_eq!(aggregate.pipeline[1], stage());
    let options = aggregate.options.as_ref().expect("options expected");
    assert_eq!(options.batch_size, Some(10));
    assert!(options.write_concern.is_none());
    let command = aggregate.build(&StreamDescription::new_testing()).unwrap();
    assert_eq!(command.target_db, "db");
    assert_eq!(command.body.get_document("cursor").unwrap().get_i32("batchSize"), Ok(10));

    let mut options = caller_options();
    options.start_after = Some(token("after"));
    let opened = watch_aggregate(
        AggregateTarget::Collection(mongodb_core::namespace::Namespace::new("db", "coll")),
        vec![],
        Some(options),
    );
    let stage_doc = opened.pipeline[0].get_document("$changeStream").unwrap();
    assert_eq!(stage_doc.keys().collect::<Vec<_>>(), vec!["startAtOperationTime", "startAfter"]);
    assert_eq!(
        stage_doc.get_timestamp("startAtOperationTime"),
        Ok(bson::Timestamp { time: 9, increment: 1 })
    );
    assert_eq!(stage_doc.get("startAfter"), Some(&token_value("after")));

    let bare = watch_aggregate(AggregateTarget::Database("db".to_string()), vec![], None);
    assert_eq!(bare.pipeline[0].get_document("$changeStream"), Ok(&Document::new()));
}
