use yugendb::capabilities::Capabilities;
use yugendb::codec::JsonCodec;
use yugendb::error::ErrorCode;
use yugendb::key::{CollectionName, Key, Namespace};
use yugendb::time::{utc_now, Timestamp};
use yugendb::value::{StoredValue, ValueBytes, ValueMetadata};

#[test]
fn valid_namespace_is_accepted() {
    let namespace = Namespace::try_from("app").expect("namespace should be valid");
    assert_eq!(namespace.as_str(), "app");
}

#[test]
fn invalid_namespace_is_rejected() {
    let error = Namespace::try_from("").expect_err("empty namespace should fail");
    assert_eq!(error.code(), ErrorCode::InvalidNamespace);
}

#[test]
fn valid_key_is_accepted() {
    let key = Key::try_from("users/reader").expect("key should be valid");
    assert_eq!(key.as_str(), "users/reader");
}

#[test]
fn invalid_key_is_rejected() {
    let error = Key::try_from(
        "bad
key",
    )
    .expect_err("control characters should fail");
    assert_eq!(error.code(), ErrorCode::InvalidKey);
}

#[test]
fn collection_default_is_default() {
    let collection = CollectionName::default();
    assert_eq!(collection.as_str(), "default");
}

#[test]
fn error_codes_are_stable_strings() {
    assert_eq!(ErrorCode::NotFound.as_str(), "NOT_FOUND");
    assert_eq!(
        ErrorCode::SerialisationError.as_str(),
        "SERIALISATION_ERROR"
    );
    assert_eq!(
        ErrorCode::DeserialisationError.as_str(),
        "DESERIALISATION_ERROR"
    );
}

fn reader_user() -> serde_json::Value {
    let mut fields = serde_json::Map::new();
    fields.insert(
        "display_name".to_owned(),
        serde_json::Value::String("Reader".to_owned()),
    );
    serde_json::Value::Object(fields)
}

#[test]
fn json_codec_serialises_and_deserialises() {
    let codec = JsonCodec;
    let user = reader_user();

    let bytes = codec.serialise_json_value(&user).expect("serialise user");
    let loaded = codec.deserialise_json_value(&bytes).expect("deserialise user");

    assert_eq!(loaded, user);
}

#[test]
fn json_codec_reports_deserialisation_failure() {
    let codec = JsonCodec;
    let bytes = ValueBytes::from(vec![b'{']);
    let error = codec
        .deserialise_json_value(&bytes)
        .expect_err("invalid JSON should fail");

    assert_eq!(error.code(), ErrorCode::DeserialisationError);
    match error {
        yugendb::error::YugenDbError::DeserialisationError { message } => {
            assert_eq!(message, "EOF while parsing an object at line 1 column 1")
        }
        other => panic!("unexpected error: {other:?}"),
    }
}

#[test]
fn stored_value_expiry_is_detected() {
    let now = utc_now();
    let metadata = ValueMetadata::new("json", now, Some(Timestamp::new(now.secs - 1, now.nanos)));
    let stored = StoredValue::new(ValueBytes::from(vec![1, 2, 3]), metadata);

    assert!(stored.is_expired());
}

#[test]
fn capabilities_helpers_are_coherent() {
    let minimal = Capabilities::minimal();
    assert!(!minimal.prefix_scan);
    assert!(!minimal.batch_write);

    let memory = Capabilities::memory();
    assert!(memory.ttl);
    assert!(memory.prefix_scan);
    assert!(memory.batch_write);

    let sqlite = Capabilities::sqlite();
    assert!(sqlite.transactions);
    assert!(!sqlite.raw_sql);
}
