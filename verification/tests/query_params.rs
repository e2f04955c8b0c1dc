//! Query builder tests: which parameters are sent, in what form, and the
//! timestamp and decimal renderings used on the wire.
use batches_client::query::BatchesQuery;
use batches_client::response::interpret_batches_response;
use batches_client::text::i64_dec_string;
use batches_client::text::u32_dec_string;
use batches_client::timefmt::parse_rfc3339;
use batches_client::timefmt::Timestamp;

#[test]
fn test_query_serialization_for_batches() {
    let q = BatchesQuery::new().with_limit(2).with_from(40);
    let params = q.to_query_params();
    assert!(params.contains(&("limit".to_string(), "2".to_string())));
    assert!(params.contains(&("from".to_string(), "40".to_string())));
    assert_eq!(params.len(), 3);

    let res = interpret_batches_response(200, r#"{"results":[],"limit":2,"total":0}"#)
        .expect("request failed");
    assert_eq!(res.limit, 2);
    assert_eq!(res.total, 0);
    assert!(res.results.is_empty());
}

#[test]
fn test_default_query_sends_only_reverse() {
    let q = BatchesQuery::new();
    let params = q.to_query_params();
    assert_eq!(params, vec![("reverse".to_string(), "false".to_string())]);
}

#[test]
fn test_unset_fields_are_absent() {
    let q = BatchesQuery::new().with_limit(7);
    let params = q.to_query_params();
    assert_eq!(params.len(), 2);
    assert_eq!(params[0], ("limit".to_string(), "7".to_string()));
    assert_eq!(params[1], ("reverse".to_string(), "false".to_string()));
    for key in [
        "uids",
        "batchUids",
        "indexUids",
        "statuses",
        "types",
        "from",
        "beforeEnqueuedAt",
        "beforeStartedAt",
        "beforeFinishedAt",
        "afterEnqueuedAt",
        "afterStartedAt",
        "afterFinishedAt",
    ] {
        assert!(!params.iter().any(|p| p.0 == key));
    }
}

#[test]
fn test_list_filters_are_comma_joined() {
    let q = BatchesQuery::new()
        .with_uids(vec![1, 2, 3])
        .with_batch_uids(vec![-4])
        .with_index_uids(vec!["movies".to_string(), "books".to_string()])
        .with_statuses(vec!["succeeded".to_string(), "failed".to_string()])
        .with_types(vec!["indexCreation".to_string()])
        .with_reverse(true);
    let params = q.to_query_params();
    assert_eq!(
        params,
        vec![
            ("uids".to_string(), "1,2,3".to_string()),
            ("batchUids".to_string(), "-4".to_string()),
            ("indexUids".to_string(), "movies,books".to_string()),
            ("statuses".to_string(), "succeeded,failed".to_string()),
            ("types".to_string(), "indexCreation".to_string()),
            ("reverse".to_string(), "true".to_string()),
        ]
    );
}

#[test]
fn test_timestamp_bounds_render_as_rfc3339() {
    let text = "2024-10-11T11:49:53Z";
    let nanos = parse_rfc3339(text).expect("reference instant must parse");
    let q = BatchesQuery::new()
        .with_before_enqueued_at(Timestamp::from_unix_nanos(nanos))
        .with_after_finished_at(Timestamp::from_unix_nanos(nanos));
    let params = q.to_query_params();
    assert_eq!(params.len(), 3);
    assert_eq!(params[1].0, "beforeEnqueuedAt");
    assert_eq!(params[2].0, "afterFinishedAt");
    // The rendered bound must denote the same instant it was built from.
    assert_eq!(parse_rfc3339(&params[1].1), Some(nanos));
    assert_eq!(parse_rfc3339(&params[2].1), Some(nanos));
}

#[test]
fn test_parse_rfc3339_rejects_invalid_text() {
    assert_eq!(parse_rfc3339("yesterday"), None);
    assert_eq!(parse_rfc3339(""), None);
    assert!(parse_rfc3339("2024-10-11T11:49:53.000Z").is_some());
}

#[test]
fn test_decimal_rendering() {
    assert_eq!(u32_dec_string(0), "0");
    assert_eq!(u32_dec_string(40), "40");
    assert_eq!(u32_dec_string(u32::MAX), "4294967295");
    assert_eq!(i64_dec_string(-123), "-123");
    assert_eq!(i64_dec_string(0), "0");
    assert_eq!(i64_dec_string(i64::MIN), "-9223372036854775808");
    assert_eq!(i64_dec_string(i64::MAX), "9223372036854775807");
}
