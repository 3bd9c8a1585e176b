use yugendb::batch::{Batch, BatchResult};
use yugendb::error::ErrorCode;
use yugendb::key::Key;
use yugendb::keyspace::{decode_component, decode_redis_key, encode_component, redis_key, redis_prefix};
use yugendb::options::{DeleteOptions, WriteOptions};
use yugendb::order::sort_texts;
use yugendb::store::{
    check_overwrite, delete_result, expiry_for, prepare_value, prepare_value_now, require_driver,
    retain_visible, visible_value, BatchTally, ScanCollector,
};
use yugendb::time::{Duration, Timestamp};
use yugendb::value::{StoredValue, ValueBytes, ValueMetadata};

fn at(secs: i64) -> Timestamp {
    Timestamp::new(secs, 0)
}

fn value_expiring(expires: Option<Timestamp>) -> StoredValue {
    StoredValue::new(
        ValueBytes::from(vec![9]),
        ValueMetadata::new("json", at(100), expires),
    )
}

#[test]
fn expiry_is_now_plus_ttl() {
    assert_eq!(expiry_for(at(100), None), Ok(None));
    assert_eq!(
        expiry_for(at(100), Some(Duration::from_secs(60))),
        Ok(Some(at(160)))
    );
    assert_eq!(
        expiry_for(Timestamp::new(100, 900_000_000), Some(Duration::from_millis(250))),
        Ok(Some(Timestamp::new(101, 150_000_000)))
    );
}

#[test]
fn ttl_too_large_is_an_invalid_value() {
    let error = expiry_for(at(100), Some(Duration::from_secs(u64::MAX))).expect_err("too large");
    assert_eq!(error.code(), ErrorCode::InvalidValue);
    let options = WriteOptions {
        ttl: Some(Duration::from_secs(u64::MAX)),
        overwrite: true,
    };
    let error = prepare_value_now(ValueBytes::from(vec![1]), "json", &options).expect_err("too large");
    assert_eq!(error.code(), ErrorCode::InvalidValue);
}

#[test]
fn prepared_values_carry_codec_and_times() {
    let value = prepare_value(ValueBytes::from(vec![1, 2]), "json", at(100), &WriteOptions::default())
        .expect("prepare");
    assert_eq!(value.bytes.as_slice(), &[1, 2]);
    assert_eq!(value.metadata.codec, "json");
    assert_eq!(value.metadata.created_at, at(100));
    assert_eq!(value.metadata.updated_at, at(100));
    assert_eq!(value.metadata.expires_at, None);

    let options = WriteOptions {
        ttl: Some(Duration::from_secs(5)),
        overwrite: true,
    };
    let value = prepare_value_now(ValueBytes::from(vec![3]), "json", &options).expect("prepare");
    let created = value.metadata.created_at;
    assert_eq!(value.metadata.updated_at, created);
    assert_eq!(value.metadata.expires_at, Some(Timestamp::new(created.secs + 5, created.nanos)));
}

#[test]
fn durations_keep_seconds_and_nanoseconds() {
    let duration = Duration::from_millis(1_500);
    assert_eq!(duration.as_secs(), 1);
    assert_eq!(duration.subsec_nanos(), 500_000_000);
    assert_eq!(Duration::from_secs(7).as_secs(), 7);
    let carried = Duration::new(1, 2_500_000_000);
    assert_eq!(carried.as_secs(), 3);
    assert_eq!(carried.subsec_nanos(), 500_000_000);
    assert_eq!(Duration::new(4, 20), Duration::new(4, 20));
}

#[test]
fn reads_hide_expired_values_unless_allowed() {
    let expired = value_expiring(Some(at(100)));
    assert!(visible_value(Some(expired.clone()), false, at(100)).is_none());
    assert!(visible_value(Some(expired.clone()), true, at(100)).is_some());
    assert!(visible_value(Some(expired), false, at(99)).is_some());
    assert!(visible_value(None, true, at(0)).is_none());
    assert!(visible_value(Some(value_expiring(None)), false, at(i64::MAX)).is_some());
}

#[test]
fn scans_keep_visible_records_in_order() {
    let records = vec![
        (Key::try_from("a").unwrap(), value_expiring(Some(at(50)))),
        (Key::try_from("b").unwrap(), value_expiring(None)),
        (Key::try_from("c").unwrap(), value_expiring(Some(at(500)))),
    ];
    let kept = retain_visible(records, false, at(100));
    let keys: Vec<&str> = kept.iter().map(|(key, _)| key.as_str()).collect();
    assert_eq!(keys, vec!["b", "c"]);
}

#[test]
fn scan_collector_stops_at_the_limit() {
    let mut collector = ScanCollector::new(None, Some(2), false, at(100));
    assert_eq!(collector.offer("a".to_owned(), value_expiring(None)), Ok(false));
    assert_eq!(collector.offer("b".to_owned(), value_expiring(Some(at(10)))), Ok(false));
    assert_eq!(collector.offer("c".to_owned(), value_expiring(None)), Ok(true));
    let keys: Vec<String> = collector
        .into_results()
        .into_iter()
        .map(|(key, _)| key.as_str().to_owned())
        .collect();
    assert_eq!(keys, vec!["a", "c"]);
}

#[test]
fn scan_collector_with_limit_zero_keeps_nothing() {
    let mut collector = ScanCollector::new(None, Some(0), false, at(100));
    assert_eq!(collector.offer("a".to_owned(), value_expiring(None)), Ok(true));
    assert!(collector.into_results().is_empty());

    let mut one = ScanCollector::new(None, Some(1), false, at(100));
    assert_eq!(one.offer("a".to_owned(), value_expiring(None)), Ok(true));
    assert_eq!(one.offer("b".to_owned(), value_expiring(None)), Ok(true));
    assert_eq!(one.into_results().len(), 1);
}

#[test]
fn scan_collector_passes_over_keys_outside_the_prefix() {
    let mut collector = ScanCollector::new(Some("user_"), None, false, at(100));
    assert_eq!(collector.offer("User_1".to_owned(), value_expiring(None)), Ok(false));
    assert_eq!(collector.offer("userX1".to_owned(), value_expiring(None)), Ok(false));
    assert_eq!(collector.offer("user_1".to_owned(), value_expiring(None)), Ok(false));
    let keys: Vec<String> = collector
        .into_results()
        .into_iter()
        .map(|(key, _)| key.as_str().to_owned())
        .collect();
    assert_eq!(keys, vec!["user_1"]);
}

#[test]
fn scan_collector_validates_shown_keys_only() {
    let mut collector = ScanCollector::new(None, None, false, at(100));
    assert_eq!(collector.offer("".to_owned(), value_expiring(Some(at(1)))), Ok(false));
    let error = collector
        .offer("".to_owned(), value_expiring(None))
        .expect_err("empty key");
    assert_eq!(error.code(), ErrorCode::InvalidKey);
    assert_eq!(collector.offer("z".to_owned(), value_expiring(None)), Ok(false));
    assert_eq!(collector.into_results().len(), 1);

    let mut everything = ScanCollector::new(None, None, true, at(100));
    assert_eq!(everything.offer("old".to_owned(), value_expiring(Some(at(1)))), Ok(false));
    assert_eq!(everything.into_results().len(), 1);
}

#[test]
fn batch_tally_counts_sets_and_removals() {
    let mut tally = BatchTally::new();
    tally.record_set();
    tally.record_set();
    tally.record_delete(true);
    tally.record_delete(false);
    assert_eq!(tally.result(), BatchResult::new(2, 1));
    assert_eq!(tally.result().total_count(), 3);
    assert!(Batch::new().is_empty());
}

#[test]
fn overwrite_and_delete_outcomes() {
    let keep = WriteOptions {
        ttl: None,
        overwrite: false,
    };
    let error = check_overwrite(true, &keep, "refused").expect_err("conflict");
    assert_eq!(error.code(), ErrorCode::Conflict);
    assert_eq!(check_overwrite(false, &keep, "refused"), Ok(()));
    assert_eq!(check_overwrite(true, &WriteOptions::default(), "refused"), Ok(()));

    let must = DeleteOptions { must_exist: true };
    let error = delete_result(false, &must, "missing").expect_err("not found");
    assert_eq!(error.code(), ErrorCode::NotFound);
    assert_eq!(delete_result(true, &must, "missing"), Ok(true));
    assert_eq!(delete_result(false, &DeleteOptions::default(), "missing"), Ok(false));
}

#[test]
fn a_store_needs_a_driver() {
    assert_eq!(require_driver(Some(3)), Ok(3));
    let error = require_driver::<u8>(None).expect_err("no driver");
    assert_eq!(error.code(), ErrorCode::InvalidValue);
}

#[test]
fn texts_are_sorted_with_duplicates_kept() {
    let sorted = sort_texts(vec![
        "user:2".to_owned(),
        "other".to_owned(),
        "user:10".to_owned(),
        "user:2".to_owned(),
        "".to_owned(),
    ]);
    assert_eq!(sorted, vec!["", "other", "user:10", "user:2", "user:2"]);
}

#[test]
fn redis_components_are_percent_encoded() {
    assert_eq!(encode_component("a b"), "a%20b");
    assert_eq!(encode_component("user:1"), "user%3A1");
    assert_eq!(encode_component("Az09_-."), "Az09_-.");
    assert_eq!(encode_component("é"), "%C3%A9");
    assert_eq!(decode_component("a%20b"), Some("a b".to_owned()));
    assert_eq!(decode_component("%C3%A9"), Some("é".to_owned()));
    assert_eq!(decode_component("%+A"), Some("\n".to_owned()));
    assert_eq!(decode_component("%4"), None);
    assert_eq!(decode_component("%zz"), None);
    assert_eq!(decode_component("%FF"), None);
}

#[test]
fn redis_keys_read_back_under_their_collection() {
    let key = redis_key("yugendb", "app", "users", "user:1");
    assert_eq!(key, "yugendb:app:users:user%3A1");
    assert_eq!(
        decode_redis_key("yugendb", "app", "users", &key),
        Some("user:1".to_owned())
    );
    assert_eq!(decode_redis_key("yugendb", "app", "admins", &key), None);
    assert_eq!(redis_prefix("yugendb", "app", "users", "user:"), "yugendb:app:users:user%3A");
}
