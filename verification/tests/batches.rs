//! Scenario tests: responses of the listing and single-batch endpoints,
//! decode errors, and the forward-compatible strategy codec.
use batches_client::batches::BatchStrategy;
use batches_client::batches::Statuses;
use batches_client::batches::Types;
use batches_client::codec::decode_statuses;
use batches_client::codec::decode_types;
use batches_client::codec::encode_statuses;
use batches_client::codec::encode_types;
use batches_client::errors::Error;
use batches_client::json::JsonValue;
use batches_client::response::batch_path;
use batches_client::response::batches_path;
use batches_client::response::interpret_batch_response;
use batches_client::response::interpret_batches_response;

#[test]
fn test_get_batches_parses_batch_strategy() {
    let body = r#"{
        "results": [
            {
                "uid": 42,
                "enqueuedAt": "2024-10-11T11:49:53.000Z",
                "startedAt": "2024-10-11T11:49:54.000Z",
                "finishedAt": "2024-10-11T11:49:55.000Z",
                "indexUid": "movies",
                "taskUids": [1, 2, 3],
                "batchStrategy": "time_limit_reached"
            }
        ],
        "limit": 20,
        "from": null,
        "next": null,
        "total": 1
    }"#;
    let batches = interpret_batches_response(200, body).expect("list batches failed");
    assert_eq!(batches.results.len(), 1);
    let b = &batches.results[0];
    assert_eq!(b.uid, 42);
    assert_eq!(b.batch_strategy, Some(BatchStrategy::TimeLimitReached));
    assert_eq!(batches.limit, 20);
    assert_eq!(batches.total, 1);
    assert_eq!(batches.from, None);
    assert_eq!(batches.next, None);
    assert!(batches.is_last_page());
    assert!(b.stats.is_none());
    assert!(b.progress.is_none());
    assert!(b.started_at.is_some());
}

#[test]
fn test_get_batch_by_uid_parses_batch_strategy() {
    let body = r#"{"uid":99,"batchStrategy":"size_limit_reached","taskUids":[10,11]}"#;
    let batch = interpret_batch_response(200, body).expect("get batch failed");
    assert_eq!(batch.uid, 99);
    assert_eq!(batch.batch_strategy, Some(BatchStrategy::SizeLimitReached));
}

#[test]
fn test_strategy_known_wire_strings() {
    assert_eq!(
        BatchStrategy::from_wire("size_limit_reached"),
        BatchStrategy::SizeLimitReached
    );
    assert_eq!(
        BatchStrategy::from_wire("time_limit_reached"),
        BatchStrategy::TimeLimitReached
    );
}

#[test]
fn test_strategy_unknown_wire_strings() {
    assert_eq!(BatchStrategy::from_wire("batch_graph_built"), BatchStrategy::Unknown);
    assert_eq!(BatchStrategy::from_wire(""), BatchStrategy::Unknown);
    assert_eq!(BatchStrategy::from_wire("SIZE_LIMIT_REACHED"), BatchStrategy::Unknown);
}

#[test]
fn test_strategy_wire_round_trip() {
    for st in [
        BatchStrategy::SizeLimitReached,
        BatchStrategy::TimeLimitReached,
        BatchStrategy::Unknown,
    ] {
        let wire = st.to_wire();
        assert_eq!(BatchStrategy::from_wire(&wire), st);
    }
    assert_eq!(BatchStrategy::Unknown.to_wire(), "unknown");
}

#[test]
fn test_statuses_round_trip_preserves_set_fields() {
    let s = Statuses {
        enqueued: Some(1),
        processing: None,
        succeeded: Some(3),
        failed: None,
        canceled: Some(0),
    };
    let v = encode_statuses(&s);
    if let JsonValue::Obj(entries) = &v {
        assert_eq!(entries.len(), 3);
        assert_eq!(entries[0].0, "enqueued");
        assert_eq!(entries[1].0, "succeeded");
        assert_eq!(entries[2].0, "canceled");
    } else {
        panic!("statuses must encode to an object");
    }
    let back = decode_statuses(&v).expect("round trip failed");
    assert_eq!(back, s);
}

#[test]
fn test_types_round_trip_preserves_set_fields() {
    let t = Types {
        index_creation: Some(7),
        index_update: None,
        index_deletion: None,
        index_swap: None,
        document_addition_or_update: Some(2),
        document_deletion: None,
        settings_update: None,
        dump_creation: None,
        task_cancellation: None,
        task_deletion: None,
        upgrade_database: None,
        document_edition: None,
        snapshot_creation: Some(1),
    };
    let v = encode_types(&t);
    if let JsonValue::Obj(entries) = &v {
        assert_eq!(entries.len(), 3);
    } else {
        panic!("types must encode to an object");
    }
    let back = decode_types(&v).expect("round trip failed");
    assert_eq!(back, t);
}

#[test]
fn test_histogram_decode_tolerates_null_and_unknown_keys() {
    let batch = interpret_batch_response(
        200,
        r#"{"uid":1,"stats":{
            "totalNbTasks":4,
            "status":{"succeeded":4,"failed":null,"futureCategory":9},
            "types":{"indexCreation":4},
            "indexedUids":{"movies":4},
            "progressTrace":{"step":"done"},
            "writeChannelCongestion":{"attempts":10,"blockingAttempts":0,"blockingRatio":0.25},
            "internalDatabaseSizes":{
                "externalDocumentsId":"1 MiB",
                "wordDocsId":"2 MiB",
                "wordPairProximityIds":"3 MiB",
                "wordPositionDocIds":"4 MiB",
                "wordFidDocIds":"5 MiB",
                "fieldIdWordCountDocIds":"6 MiB",
                "documents":"7 MiB"
            }
        }}"#,
    )
    .expect("batch with stats failed");
    let stats = batch.stats.expect("stats missing");
    assert_eq!(stats.total_nb_tasks, 4);
    assert_eq!(stats.status.succeeded, Some(4));
    assert_eq!(stats.status.failed, None);
    assert_eq!(stats.status.enqueued, None);
    assert_eq!(stats.types.index_creation, Some(4));
    assert_eq!(stats.indexed_uids, vec![("movies".to_string(), 4)]);
    assert_eq!(
        stats.progress_trace,
        vec![("step".to_string(), "done".to_string())]
    );
    assert_eq!(stats.write_channel_congestion.attempts, 10);
    assert_eq!(stats.write_channel_congestion.blocking_attempts, 0);
    assert_eq!(stats.write_channel_congestion.blocking_ratio, "0.25");
    assert_eq!(stats.internal_database_sizes.documents, "7 MiB");
}

#[test]
fn test_progress_decode() {
    let batch = interpret_batch_response(
        200,
        r#"{"uid":5,"progress":{
            "steps":[{"currentStep":"indexing","finished":3,"total":10}],
            "percentage":12.5
        },"duration":"PT1.5S"}"#,
    )
    .expect("batch with progress failed");
    let progress = batch.progress.expect("progress missing");
    assert_eq!(progress.steps.len(), 1);
    assert_eq!(progress.steps[0].current_step, "indexing");
    assert_eq!(progress.steps[0].finished, 3);
    assert_eq!(progress.steps[0].total, 10);
    assert_eq!(progress.percentage, "12.5");
    assert_eq!(batch.duration, Some("PT1.5S".to_string()));
}

#[test]
fn test_terminal_page_and_empty_page_are_valid() {
    let terminal = interpret_batches_response(
        200,
        r#"{"results":[{"uid":7}],"total":1,"limit":20,"from":7,"next":null}"#,
    )
    .expect("terminal page failed");
    assert_eq!(terminal.results.len(), 1);
    assert_eq!(terminal.from, Some(7));
    assert!(terminal.is_last_page());

    let empty = interpret_batches_response(200, r#"{"results":[],"total":0,"limit":20}"#)
        .expect("empty page failed");
    assert_eq!(empty.results.len(), 0);
    assert_eq!(empty.total, 0);
    assert!(empty.is_last_page());
}

#[test]
fn test_not_found_and_http_status_errors() {
    let e = interpret_batch_response(404, "").expect_err("404 must fail");
    assert!(matches!(e, Error::NotFound));

    let e = interpret_batches_response(500, "oops").expect_err("500 must fail");
    match e {
        Error::HttpStatus { status, body } => {
            assert_eq!(status, 500);
            assert_eq!(body, "oops");
        }
        _ => panic!("expected an HTTP status error"),
    }

    let e = interpret_batch_response(503, "down").expect_err("503 must fail");
    assert!(matches!(e, Error::HttpStatus { .. }));
}

#[test]
fn test_decode_errors() {
    let e = interpret_batches_response(200, "not json").expect_err("junk must fail");
    assert!(matches!(e, Error::Decode { .. }));

    let e = interpret_batches_response(200, r#"{"results":"x","total":0,"limit":1}"#)
        .expect_err("bad results must fail");
    assert!(matches!(e, Error::Decode { .. }));

    let e = interpret_batches_response(200, r#"{"results":[],"limit":1}"#)
        .expect_err("missing total must fail");
    assert!(matches!(e, Error::Decode { .. }));

    let e = interpret_batch_response(200, r#"{"uid":"not a number"}"#)
        .expect_err("bad uid must fail");
    assert!(matches!(e, Error::Decode { .. }));

    let e = interpret_batch_response(200, r#"{"uid":1,"startedAt":"not a date"}"#)
        .expect_err("bad timestamp must fail");
    assert!(matches!(e, Error::Decode { .. }));

    let e = interpret_batch_response(200, r#"{"uid":1,"batchStrategy":7}"#)
        .expect_err("non-string strategy must fail");
    assert!(matches!(e, Error::Decode { .. }));
}

#[test]
fn test_endpoint_paths() {
    assert_eq!(batches_path(), "/batches");
    assert_eq!(batch_path(99), "/batches/99");
    assert_eq!(batch_path(0), "/batches/0");
    assert_eq!(batch_path(-12), "/batches/-12");
}
