use yugendb::keyspace::{compose_collection_prefix, compose_storage_key, DEFAULT_KEY_PREFIX};
use yugendb::mongodb_driver::{
    identity_index_fields, mongodb, mongodb_capabilities, MongoDbDriver, STORAGE_COLLECTION_NAME,
    STORED_DOCUMENT_FIELDS,
};
use yugendb::postgres_schema;
use yugendb::redis_driver::{redis, redis_capabilities, RedisDriver};
use yugendb::sqlite_driver::{
    schema_statements, sqlite, sqlite_capabilities, SqliteDriver, CREATE_EXPIRES_AT_INDEX_SQL,
    CREATE_PREFIX_INDEX_SQL, CREATE_STORE_TABLE_SQL, STORE_TABLE_NAME,
};

#[test]
fn keyspace_mapping_is_deterministic() {
    assert_eq!(DEFAULT_KEY_PREFIX, "yugendb");
    assert_eq!(
        compose_storage_key("yugendb", "app", "users", "001"),
        "yugendb:app:users:001"
    );
    assert_eq!(
        compose_collection_prefix("yugendb", "app", "users"),
        "yugendb:app:users:"
    );
}

#[test]
fn driver_driver_name_options_and_capabilities_are_coherent() {
    let driver = RedisDriver::new("redis://localhost:6379").expect("driver");
    assert_eq!(driver.name(), "redis");
    assert_eq!(driver.options().key_prefix, "yugendb");
    assert!(driver.capabilities().prefix_scan);
    assert_eq!(redis_capabilities().prefix_scan, true);
}

#[test]
fn driver_constructor_returns_driver() {
    let driver = redis("redis://localhost:6379").expect("driver");
    assert_eq!(driver.name(), "redis");
}

#[test]
fn document_mapping_is_coherent() {
    assert_eq!(STORAGE_COLLECTION_NAME, "yugendb_store");
    assert_eq!(identity_index_fields(), ["namespace", "collection", "key"]);
    assert!(STORED_DOCUMENT_FIELDS.contains(&"value"));
    assert!(STORED_DOCUMENT_FIELDS.contains(&"expiresAt"));
}

#[test]
fn mongodb_driver_name_options_and_capabilities_are_coherent() {
    let driver = MongoDbDriver::new("mongodb://localhost:27017");
    assert_eq!(driver.name(), "mongodb");
    assert_eq!(driver.options().database, "yugendb");
    assert!(!driver.capabilities().document_query);
    assert!(driver.capabilities().prefix_scan);
    assert!(!mongodb_capabilities().document_query);
}

#[test]
fn mongodb_constructor_returns_driver() {
    let driver = mongodb("mongodb://localhost:27017");
    assert_eq!(driver.name(), "mongodb");
}

#[test]
fn schema_mentions_storage_table_and_indexes() {
    assert_eq!(postgres_schema::STORE_TABLE_NAME, "yugendb_store");
    assert!(postgres_schema::CREATE_STORE_TABLE_SQL.contains("CREATE TABLE"));
    assert!(postgres_schema::CREATE_STORE_TABLE_SQL.contains("yugendb_store"));
    assert!(postgres_schema::CREATE_PREFIX_INDEX_SQL.contains("idx_yugendb_store_prefix"));
    assert!(postgres_schema::CREATE_EXPIRES_AT_INDEX_SQL.contains("idx_yugendb_store_expires_at"));
    assert_eq!(postgres_schema::schema_statements().len(), 3);
}

#[test]
fn schema_statements_include_expected_sql() {
    let statements = schema_statements();

    assert!(statements
        .iter()
        .any(|statement| statement.contains("CREATE TABLE")));
    assert!(statements
        .iter()
        .any(|statement| statement.contains(STORE_TABLE_NAME)));
    assert!(statements
        .iter()
        .any(|statement| statement.contains("idx_yugendb_store_prefix")));
    assert!(statements
        .iter()
        .any(|statement| statement.contains("idx_yugendb_store_expires_at")));
}

#[test]
fn schema_constants_match_storage_model() {
    assert!(CREATE_STORE_TABLE_SQL.contains("value BLOB NOT NULL"));
    assert!(CREATE_STORE_TABLE_SQL.contains("codec TEXT NOT NULL"));
    assert!(CREATE_PREFIX_INDEX_SQL.contains("namespace, collection, key"));
    assert!(CREATE_EXPIRES_AT_INDEX_SQL.contains("expires_at"));
}

#[test]
fn driver_is_named_sqlite() {
    let driver = SqliteDriver::new("app.db");
    assert_eq!(driver.name(), "sqlite");
    assert!(!driver.capabilities().raw_sql);
}

#[test]
fn capabilities_report_implemented_storage_behaviour() {
    let capabilities = sqlite_capabilities();
    assert!(capabilities.transactions);
    assert!(capabilities.ttl);
    assert!(capabilities.prefix_scan);
    assert!(capabilities.batch_write);
    assert!(!capabilities.raw_sql);
}

#[test]
fn sqlite_constructor_returns_driver() {
    let driver = sqlite("app.db");
    assert_eq!(driver.name(), "sqlite");
}
