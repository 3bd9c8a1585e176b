use yugendb::error::{ErrorCode, YugenDbError};
use yugendb::key::{CollectionName, Key, Namespace};
use yugendb::mongodb_driver::{
    document_from_value, document_key, prefix_pattern, regex_escape, value_from_document,
    DocumentField, StoredDocument,
};
use yugendb::mysql_driver::{
    failure_kind, map_mysql_error, mysql_failure, MysqlFailureKind, SqlxErrorVariant,
};
use yugendb::record::{record_times, value_from_columns, RecordColumns};
use yugendb::redis_driver::{
    envelope_from_value, expiry_millis, redis, redis_failure, value_from_envelope, RedisDriver,
    RedisEnvelope,
};
use yugendb::time::{parse_timestamp, timestamp_to_text, Timestamp};
use yugendb::value::{StoredValue, ValueBytes, ValueMetadata};

fn sample(expires: Option<Timestamp>) -> StoredValue {
    StoredValue::new(
        ValueBytes::from(vec![1, 2, 3]),
        ValueMetadata {
            codec: "json".to_owned(),
            created_at: Timestamp::new(1_700_000_000, 0),
            updated_at: Timestamp::new(1_700_000_001, 500_000_000),
            expires_at: expires,
        },
    )
}

fn driver_of(error: &YugenDbError) -> &str {
    match error {
        YugenDbError::DriverError { driver, .. } => driver.as_str(),
        _ => panic!("not a driver error: {error:?}"),
    }
}

fn message_of(error: &YugenDbError) -> &str {
    match error {
        YugenDbError::DriverError { message, .. } => message.as_str(),
        YugenDbError::NotFound { message } => message.as_str(),
        YugenDbError::ConnectionError { message } => message.as_str(),
        YugenDbError::Timeout { message } => message.as_str(),
        YugenDbError::InvalidValue { message } => message.as_str(),
        YugenDbError::InvalidKey { message } => message.as_str(),
        _ => panic!("unexpected error: {error:?}"),
    }
}

#[test]
fn timestamps_are_written_as_rfc3339() {
    let text = timestamp_to_text(Timestamp::new(1_700_000_000, 0)).expect("in range");
    assert_eq!(text, "2023-11-14T22:13:20+00:00");
    let text = timestamp_to_text(Timestamp::new(1_700_000_001, 500_000_000)).expect("in range");
    assert_eq!(text, "2023-11-14T22:13:21.500+00:00");
    let parsed = parse_timestamp("sqlite", "2023-11-14T23:13:20+01:00").expect("parses");
    assert_eq!(parsed, Timestamp::new(1_700_000_000, 0));
    let error = parse_timestamp("sqlite", "yesterday").expect_err("does not parse");
    assert_eq!(driver_of(&error), "sqlite");
    assert_eq!(message_of(&error), "premature end of input");
}

#[test]
fn moments_beyond_four_digit_years_are_refused_or_kept_apart() {
    let error = timestamp_to_text(Timestamp::new(i64::MAX, 0)).expect_err("out of range");
    assert_eq!(error.code(), ErrorCode::InvalidValue);
}

#[test]
fn record_columns_read_back_as_written() {
    for expires in [None, Some(Timestamp::new(1_800_000_000, 1))] {
        let value = sample(expires);
        let times = record_times(&value).expect("times");
        assert_eq!(times.expires_at.is_some(), expires.is_some());
        let columns = RecordColumns {
            value: value.bytes.as_slice().to_vec(),
            codec: value.metadata.codec.clone(),
            created_at: times.created_at,
            updated_at: times.updated_at,
            expires_at: times.expires_at,
        };
        let loaded = value_from_columns("sqlite", columns).expect("reads back");
        assert_eq!(loaded, value);
    }
}

#[test]
fn record_columns_with_a_bad_time_are_driver_errors() {
    let columns = RecordColumns {
        value: vec![1],
        codec: "json".to_owned(),
        created_at: "2023-11-14T22:13:20+00:00".to_owned(),
        updated_at: "2023-11-14T22:13:20+00:00".to_owned(),
        expires_at: Some("never".to_owned()),
    };
    let error = value_from_columns("mysql", columns).expect_err("bad expiry");
    assert_eq!(error.code(), ErrorCode::DriverError);
    assert_eq!(driver_of(&error), "mysql");
}

#[test]
fn redis_envelope_reads_back_as_written() {
    let value = sample(Some(Timestamp::new(1_800_000_000, 0)));
    let envelope = envelope_from_value(&value).expect("envelope");
    assert_eq!(envelope.value, "AQID");
    assert_eq!(envelope.codec, "json");
    assert_eq!(envelope.created_at, "2023-11-14T22:13:20+00:00");
    assert_eq!(envelope.expires_at.as_deref(), Some("2027-01-15T08:00:00+00:00"));
    let loaded = value_from_envelope(envelope).expect("reads back");
    assert_eq!(loaded, value);
}

#[test]
fn redis_envelope_with_bad_base64_is_a_driver_error() {
    let envelope = RedisEnvelope {
        value: "not base64!".to_owned(),
        codec: "json".to_owned(),
        created_at: "2023-11-14T22:13:20+00:00".to_owned(),
        updated_at: "2023-11-14T22:13:20+00:00".to_owned(),
        expires_at: None,
    };
    let error = value_from_envelope(envelope).expect_err("bad base64");
    assert_eq!(driver_of(&error), "redis");
}

#[test]
fn redis_failures_are_classified() {
    let timeout = redis_failure(true, "slow");
    assert_eq!(timeout.code(), ErrorCode::Timeout);
    assert_eq!(message_of(&timeout), "slow");
    let other = redis_failure(false, "broken");
    assert_eq!(driver_of(&other), "redis");
    assert_eq!(message_of(&other), "broken");
}

#[test]
fn mongodb_document_reads_back_as_written() {
    let namespace = Namespace::try_from("app").expect("namespace");
    let collection = CollectionName::try_from("users").expect("collection");
    let key = Key::try_from("reader").expect("key");
    for expires in [None, Some(Timestamp::new(1_800_000_000, 0))] {
        let value = sample(expires);
        let document = document_from_value(&namespace, &collection, &key, &value).expect("document");
        assert!(matches!(&document.namespace, DocumentField::Text(t) if t == "app"));
        assert!(matches!(&document.value, DocumentField::Binary(b) if b == &vec![1, 2, 3]));
        if expires.is_none() {
            assert!(matches!(document.expires_at, DocumentField::Null));
        }
        assert_eq!(document_key(&document).expect("key"), "reader");
        let loaded = value_from_document(document).expect("reads back");
        assert_eq!(loaded, value);
    }
}

fn document(value: DocumentField, codec: DocumentField, expires_at: DocumentField) -> StoredDocument {
    StoredDocument {
        namespace: DocumentField::Text("app".to_owned()),
        collection: DocumentField::Text("users".to_owned()),
        key: DocumentField::Missing,
        value,
        codec,
        created_at: DocumentField::Text("2023-11-14T22:13:20+00:00".to_owned()),
        updated_at: DocumentField::Text("2023-11-14T22:13:20+00:00".to_owned()),
        expires_at,
    }
}

#[test]
fn mongodb_documents_without_a_value_are_refused() {
    let error = value_from_document(document(
        DocumentField::Text("abc".to_owned()),
        DocumentField::Text("json".to_owned()),
        DocumentField::Missing,
    ))
    .expect_err("value is not binary");
    assert_eq!(driver_of(&error), "mongodb");
    assert_eq!(message_of(&error), "stored document has invalid value field");
}

#[test]
fn mongodb_document_fields_are_read_by_type() {
    let missing_codec = value_from_document(document(
        DocumentField::Binary(vec![7]),
        DocumentField::Missing,
        DocumentField::Missing,
    ))
    .expect_err("codec is missing");
    assert_eq!(message_of(&missing_codec), "field is not present");

    let numeric_codec = value_from_document(document(
        DocumentField::Binary(vec![7]),
        DocumentField::Other,
        DocumentField::Missing,
    ))
    .expect_err("codec is not a string");
    assert_eq!(message_of(&numeric_codec), "field does not have the expected type");

    let bad_expiry = value_from_document(document(
        DocumentField::Binary(vec![7]),
        DocumentField::Text("json".to_owned()),
        DocumentField::Binary(vec![]),
    ))
    .expect_err("expiry is not a string");
    assert_eq!(message_of(&bad_expiry), "stored document has invalid expiresAt field");

    let without_expiry = value_from_document(document(
        DocumentField::Binary(vec![7]),
        DocumentField::Text("json".to_owned()),
        DocumentField::Missing,
    ))
    .expect("absent expiry reads as none");
    assert_eq!(without_expiry.metadata.expires_at, None);
    assert_eq!(without_expiry.bytes.as_slice(), &[7]);

    let key_error = document_key(&document(
        DocumentField::Binary(vec![7]),
        DocumentField::Missing,
        DocumentField::Missing,
    ))
    .expect_err("no key");
    assert_eq!(driver_of(&key_error), "mongodb");
}

#[test]
fn mongodb_prefix_patterns_match_literally() {
    assert_eq!(regex_escape("user.1+(a)"), "user\\.1\\+\\(a\\)");
    assert_eq!(regex_escape("plain"), "plain");
    assert_eq!(prefix_pattern("a.b"), "^a\\.b");
    assert_eq!(prefix_pattern(""), "^");
}

#[test]
fn mysql_failures_are_classified() {
    let missing = mysql_failure(MysqlFailureKind::RowNotFound, "ignored");
    assert_eq!(missing.code(), ErrorCode::NotFound);
    assert_eq!(message_of(&missing), "MySQL row was not found");
    let connection = mysql_failure(MysqlFailureKind::Connection, "pool timed out");
    assert_eq!(connection.code(), ErrorCode::ConnectionError);
    assert_eq!(message_of(&connection), "pool timed out");
    let other = mysql_failure(MysqlFailureKind::Other, "syntax");
    assert_eq!(driver_of(&other), "mysql");
}

#[test]
fn redis_expiry_is_whole_milliseconds_and_at_least_one() {
    let now = Timestamp::new(1_700_000_000, 0);
    assert_eq!(expiry_millis(Timestamp::new(1_700_000_005, 250_999_999), now), 5_250);
    assert_eq!(expiry_millis(Timestamp::new(1_700_000_000, 999_999), now), 1);
    assert_eq!(expiry_millis(Timestamp::new(1_699_999_990, 0), now), 1);
    assert_eq!(expiry_millis(Timestamp::new(1_700_000_000, 7_000_000), now), 7);
}

#[test]
fn redis_scan_pattern_covers_the_prefix() {
    let driver = redis("redis://localhost:6379").expect("driver");
    let namespace = Namespace::try_from("app").expect("namespace");
    let collection = CollectionName::try_from("users").expect("collection");
    assert_eq!(
        driver.scan_pattern(&namespace, &collection, "user:"),
        "yugendb:app:users:user%3A*"
    );
    let key = Key::try_from("a b").expect("key");
    assert_eq!(driver.key(&namespace, &collection, &key), "yugendb:app:users:a%20b");
}

#[test]
fn leap_seconds_read_back_as_written() {
    let leap = Timestamp::new(1_700_000_039, 1_250_000_000);
    let text = timestamp_to_text(leap).expect("in range");
    assert_eq!(text, "2023-11-14T22:13:60.250+00:00");
    assert_eq!(parse_timestamp("sqlite", &text).expect("parses"), leap);

    let value = StoredValue::new(
        ValueBytes::from(vec![4]),
        ValueMetadata {
            codec: "json".to_owned(),
            created_at: leap,
            updated_at: leap,
            expires_at: Some(leap),
        },
    );
    let envelope = envelope_from_value(&value).expect("envelope");
    assert_eq!(value_from_envelope(envelope).expect("reads back"), value);
}

#[test]
fn sqlx_variants_are_grouped_into_failure_kinds() {
    assert_eq!(failure_kind(SqlxErrorVariant::RowNotFound), MysqlFailureKind::RowNotFound);
    assert_eq!(failure_kind(SqlxErrorVariant::PoolTimedOut), MysqlFailureKind::Connection);
    assert_eq!(failure_kind(SqlxErrorVariant::Io), MysqlFailureKind::Connection);
    assert_eq!(failure_kind(SqlxErrorVariant::Tls), MysqlFailureKind::Connection);
    assert_eq!(failure_kind(SqlxErrorVariant::Other), MysqlFailureKind::Other);
}

#[test]
fn mongodb_document_faults_are_reported_in_reading_order() {
    let mut faulty = document(
        DocumentField::Binary(vec![1]),
        DocumentField::Missing,
        DocumentField::Other,
    );
    faulty.created_at = DocumentField::Text("not a time".to_owned());
    let error = value_from_document(faulty).expect_err("codec is read first");
    assert_eq!(message_of(&error), "field is not present");

    let mut bad_time = document(
        DocumentField::Binary(vec![1]),
        DocumentField::Text("json".to_owned()),
        DocumentField::Other,
    );
    bad_time.created_at = DocumentField::Text("not a time".to_owned());
    let error = value_from_document(bad_time).expect_err("the creation time is read before the expiry");
    assert_eq!(driver_of(&error), "mongodb");
    assert_ne!(message_of(&error), "stored document has invalid expiresAt field");
}

#[test]
fn outside_errors_are_classified() {
    let timed_out = redis::RedisError::from(std::io::Error::new(std::io::ErrorKind::TimedOut, "slow"));
    assert_eq!(RedisDriver::map_error(&timed_out).code(), ErrorCode::Timeout);
    let refused = redis::RedisError::from((redis::ErrorKind::ResponseError, "refused"));
    assert_eq!(driver_of(&RedisDriver::map_error(&refused)), "redis");

    let missing = map_mysql_error(&sqlx::Error::RowNotFound);
    assert_eq!(missing.code(), ErrorCode::NotFound);
    assert_eq!(message_of(&missing), "MySQL row was not found");
    assert_eq!(map_mysql_error(&sqlx::Error::PoolTimedOut).code(), ErrorCode::ConnectionError);
    let other = map_mysql_error(&sqlx::Error::Protocol("bad packet".to_owned()));
    assert_eq!(driver_of(&other), "mysql");

}

#[test]
fn errors_read_as_text() {
    assert_eq!(
        YugenDbError::driver_error("sqlite", "disk full").text(),
        "driver error from `sqlite`: disk full"
    );
    assert_eq!(YugenDbError::not_found("gone").text(), "record was not found: gone");
    assert_eq!(
        YugenDbError::unsupported_feature("watch", "not here").text(),
        "unsupported feature `watch`: not here"
    );
    assert_eq!(YugenDbError::timeout("slow").text(), "operation timed out: slow");
}

#[test]
fn redis_expiry_counts_leap_seconds_as_chrono_does() {
    let leap = Timestamp::new(1_700_000_039, 1_500_000_000);
    let before = Timestamp::new(1_700_000_039, 0);
    assert_eq!(expiry_millis(leap, before), 1_500);
    let after = Timestamp::new(1_700_000_040, 0);
    let later = Timestamp::new(1_700_000_041, 0);
    assert_eq!(expiry_millis(later, leap), 1_500);
    assert_eq!(expiry_millis(after, Timestamp::new(1_700_000_039, 999_000_000)), 1);
}
