use yugendb::batch::{Batch, BatchOperation};
use yugendb::capabilities::Capabilities;
use yugendb::codec::JsonCodec;
use yugendb::error::ErrorCode;
use yugendb::key::{CollectionName, Key, Namespace};
use yugendb::memory::MemoryStore;
use yugendb::options::{DeleteOptions, ReadOptions, ScanOptions, WriteOptions};
use yugendb::store::prepare_value;
use yugendb::time::{Duration, Timestamp};
use yugendb::value::{StoredValue, ValueMetadata};

fn user(id: &str) -> serde_json::Value {
    let mut fields = serde_json::Map::new();
    fields.insert("id".to_owned(), serde_json::Value::String(id.to_owned()));
    fields.insert(
        "email".to_owned(),
        serde_json::Value::String(format!("{id}@example.com")),
    );
    serde_json::Value::Object(fields)
}

fn now() -> Timestamp {
    Timestamp::new(1_700_000_000, 0)
}

fn stored(value: &serde_json::Value, at: Timestamp) -> StoredValue {
    let codec = JsonCodec;
    let bytes = codec.serialise_json_value(value).expect("serialise");
    StoredValue::new(bytes, ValueMetadata::new(codec.name(), at, None))
}

fn names(namespace: &str, collection: &str) -> (Namespace, CollectionName) {
    (
        Namespace::try_from(namespace).expect("namespace"),
        CollectionName::try_from(collection).expect("collection"),
    )
}

fn load(store: &MemoryStore, namespace: &Namespace, collection: &CollectionName, key: &str) -> Option<serde_json::Value> {
    let key = Key::try_from(key).expect("key");
    store
        .get_at(namespace, collection, &key, &ReadOptions::default(), now())
        .map(|value| JsonCodec.deserialise_json_value(&value.bytes).expect("deserialise"))
}

fn put(store: &mut MemoryStore, namespace: &Namespace, collection: &CollectionName, key: &str, value: StoredValue) {
    let key = Key::try_from(key).expect("key");
    store
        .set_at(namespace, collection, &key, value, &WriteOptions::default(), now())
        .expect("set");
}

#[test]
fn memory_capabilities_report_implemented_behaviour() {
    let capabilities = Capabilities::memory();
    assert!(capabilities.ttl);
    assert!(capabilities.prefix_scan);
    assert!(capabilities.batch_write);
    assert!(!capabilities.transactions);
    assert!(!capabilities.raw_sql);
    assert!(!capabilities.document_query);
}

#[test]
fn set_then_get_typed_value() {
    let mut store = MemoryStore::new();
    let (namespace, users) = names("memory_tests", "users");
    put(&mut store, &namespace, &users, "reader", stored(&user("reader"), now()));
    assert_eq!(load(&store, &namespace, &users, "reader"), Some(user("reader")));
    assert_eq!(store.len(), 1);
}

#[test]
fn get_missing_returns_none() {
    let store = MemoryStore::new();
    let (namespace, users) = names("memory_tests", "users");
    assert_eq!(load(&store, &namespace, &users, "missing"), None);
    assert!(store.is_empty());
}

#[test]
fn delete_and_exists_follow_missing_value_rules() {
    let mut store = MemoryStore::new();
    let (namespace, users) = names("memory_tests", "users");
    let reader = Key::try_from("reader").expect("key");
    put(&mut store, &namespace, &users, "reader", stored(&user("reader"), now()));

    assert!(store.contains_live_at(&namespace, &users, &reader, now()));
    assert_eq!(store.delete(&namespace, &users, &reader, &DeleteOptions::default()), Ok(true));
    assert!(!store.contains_live_at(&namespace, &users, &reader, now()));
    assert_eq!(store.delete(&namespace, &users, &reader, &DeleteOptions::default()), Ok(false));
}

#[test]
fn delete_missing_can_require_existence() {
    let mut store = MemoryStore::new();
    let (namespace, users) = names("delete", "users");
    let key = Key::try_from("missing").expect("key");
    let error = store
        .delete(&namespace, &users, &key, &DeleteOptions { must_exist: true })
        .expect_err("delete should fail when the key must exist");
    assert_eq!(error.code().as_str(), "NOT_FOUND");
}

#[test]
fn namespaces_are_isolated() {
    let mut store = MemoryStore::new();
    let (first, users) = names("first", "users");
    let (second, _) = names("second", "users");
    put(&mut store, &first, &users, "reader", stored(&user("reader"), now()));
    assert_eq!(load(&store, &second, &users, "reader"), None);
    assert_eq!(load(&store, &first, &users, "reader"), Some(user("reader")));
}

#[test]
fn collections_are_isolated() {
    let mut store = MemoryStore::new();
    let (namespace, users) = names("memory_tests", "users");
    let (_, admins) = names("memory_tests", "admins");
    put(&mut store, &namespace, &users, "reader", stored(&user("reader"), now()));
    assert_eq!(load(&store, &namespace, &admins, "reader"), None);
}

#[test]
fn prefix_scan_is_sorted_and_limited() {
    let mut store = MemoryStore::new();
    let (namespace, users) = names("memory_tests", "users");
    put(&mut store, &namespace, &users, "user:2", stored(&user("2"), now()));
    put(&mut store, &namespace, &users, "other:1", stored(&user("other"), now()));
    put(&mut store, &namespace, &users, "user:1", stored(&user("1"), now()));
    put(&mut store, &namespace, &users, "user:3", stored(&user("3"), now()));

    let options = ScanOptions {
        prefix: Some("user:".to_owned()),
        limit: None,
        include_expired: false,
    };
    let keys: Vec<String> = store
        .scan_prefix_at(&namespace, &users, &options, now())
        .into_iter()
        .map(|(key, _)| key.as_str().to_owned())
        .collect();
    assert_eq!(keys, vec!["user:1", "user:2", "user:3"]);
    assert!(Capabilities::memory().prefix_scan);

    let limited = ScanOptions {
        prefix: Some("user:".to_owned()),
        limit: Some(1),
        include_expired: false,
    };
    let direct = store.scan_prefix_at(&namespace, &users, &limited, now());
    assert_eq!(direct.len(), 1);
    assert_eq!(direct[0].0.as_str(), "user:1");

    let everything = store.scan_prefix_at(&namespace, &users, &ScanOptions::default(), now());
    assert_eq!(everything.len(), 4);
    assert_eq!(everything[0].0.as_str(), "other:1");
}

#[test]
fn batch_sets_and_deletes_values() {
    let mut store = MemoryStore::new();
    let (namespace, users) = names("batch", "users");
    let reader = Key::try_from("reader").expect("key");
    let grace = Key::try_from("grace").expect("key");

    let batch = Batch::new()
        .with_operation(BatchOperation::set(
            namespace.clone(),
            users.clone(),
            reader.clone(),
            stored(&user("Reader"), now()),
        ))
        .with_operation(BatchOperation::set(
            namespace.clone(),
            users.clone(),
            grace.clone(),
            stored(&user("Grace"), now()),
        ));
    let result = store.batch(batch);
    assert_eq!(result.set_count, 2);
    assert_eq!(result.delete_count, 0);
    assert!(store.contains_live_at(&namespace, &users, &reader, now()));

    let batch = Batch::new().with_operation(BatchOperation::delete(
        namespace.clone(),
        users.clone(),
        reader.clone(),
    ));
    let result = store.batch(batch);
    assert_eq!(result.set_count, 0);
    assert_eq!(result.delete_count, 1);
    assert!(!store.contains_live_at(&namespace, &users, &reader, now()));
    assert!(store.contains_live_at(&namespace, &users, &grace, now()));

    let batch = Batch::new().with_operation(BatchOperation::delete(namespace.clone(), users.clone(), reader));
    assert_eq!(store.batch(batch).delete_count, 0);
}

#[test]
fn ttl_expiry_hides_values() {
    let mut store = MemoryStore::new();
    let (namespace, users) = names("memory_tests", "users");
    let key = Key::try_from("reader").expect("key");
    let options = WriteOptions {
        ttl: Some(Duration::from_millis(1)),
        overwrite: true,
    };
    let bytes = JsonCodec.serialise_json_value(&user("reader")).expect("serialise");
    let value = prepare_value(bytes, "json", now(), &options).expect("prepare");
    assert_eq!(value.metadata.expires_at, Some(Timestamp::new(1_700_000_000, 1_000_000)));
    store.set_at(&namespace, &users, &key, value, &options, now()).expect("set");

    let later = Timestamp::new(1_700_000_000, 10_000_000);
    assert!(store.get_at(&namespace, &users, &key, &ReadOptions::default(), later).is_none());
    assert!(!store.contains_live_at(&namespace, &users, &key, later));
    assert!(store.get_at(&namespace, &users, &key, &ReadOptions::default(), now()).is_some());
}

#[test]
fn direct_get_can_allow_expired_values() {
    let mut store = MemoryStore::new();
    let (namespace, users) = names("ttl", "users");
    let key = Key::try_from("reader").expect("key");
    let expired = Timestamp::new(1_699_999_999, 999_000_000);
    let bytes = JsonCodec.serialise_json_value(&user("reader")).expect("serialise");
    let value = StoredValue::new(bytes, ValueMetadata::new("json", now(), Some(expired)));
    store
        .set_at(&namespace, &users, &key, value, &WriteOptions::default(), now())
        .expect("set");

    assert!(store.get_at(&namespace, &users, &key, &ReadOptions::default(), now()).is_none());
    assert!(store
        .get_at(&namespace, &users, &key, &ReadOptions { allow_expired: true }, now())
        .is_some());
}

#[test]
fn overwrite_can_be_refused_for_live_values() {
    let mut store = MemoryStore::new();
    let (namespace, users) = names("memory_tests", "users");
    let key = Key::try_from("reader").expect("key");
    let no_overwrite = WriteOptions {
        ttl: None,
        overwrite: false,
    };
    store
        .set_at(&namespace, &users, &key, stored(&user("first"), now()), &no_overwrite, now())
        .expect("first write");
    let error = store
        .set_at(&namespace, &users, &key, stored(&user("second"), now()), &no_overwrite, now())
        .expect_err("a live value is kept");
    assert_eq!(error.code(), ErrorCode::Conflict);
    assert_eq!(load(&store, &namespace, &users, "reader"), Some(user("first")));

    store
        .set_at(&namespace, &users, &key, stored(&user("third"), now()), &WriteOptions::default(), now())
        .expect("overwrite");
    assert_eq!(load(&store, &namespace, &users, "reader"), Some(user("third")));
}

#[test]
fn clear_removes_every_record() {
    let mut store = MemoryStore::new();
    let (namespace, users) = names("memory_tests", "users");
    put(&mut store, &namespace, &users, "a", stored(&user("a"), now()));
    put(&mut store, &namespace, &users, "b", stored(&user("b"), now()));
    assert_eq!(store.len(), 2);
    store.clear();
    assert!(store.is_empty());
}

#[test]
fn expired_records_are_retained_and_counted() {
    let mut store = MemoryStore::new();
    let (namespace, users) = names("memory_tests", "users");
    put(&mut store, &namespace, &users, "live", stored(&user("live"), now()));
    let key = Key::try_from("old").expect("key");
    let bytes = JsonCodec.serialise_json_value(&user("old")).expect("serialise");
    let expired = StoredValue::new(
        bytes,
        ValueMetadata::new("json", now(), Some(Timestamp::new(1_600_000_000, 0))),
    );
    store
        .set_at(&namespace, &users, &key, expired, &WriteOptions::default(), now())
        .expect("set");
    assert_eq!(store.len(), 2);
    assert!(!store.contains_live_at(&namespace, &users, &key, now()));
    assert_eq!(store.delete(&namespace, &users, &key, &DeleteOptions::default()), Ok(true));
    assert_eq!(store.len(), 1);
}
