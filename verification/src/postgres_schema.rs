//! PostgreSQL storage schema.
//!
//! The schema maps the namespace, collection and key contract to one SQL
//! storage table.

use vstd::prelude::*;

verus! {

/// Storage table used by the PostgreSQL driver.
pub const STORE_TABLE_NAME: &'static str = "yugendb_store";

/// Current schema version for the PostgreSQL storage table.
pub const SCHEMA_VERSION: u32 = 1;

/// Metadata table used for migration tracking.
pub const MIGRATION_METADATA_TABLE_NAME: &'static str = "yugendb_migrations";

/// Binary value column type for this backend.
pub const VALUE_COLUMN_TYPE: &'static str = "BYTEA";

/// Table creation statement for the storage table.
pub const CREATE_STORE_TABLE_SQL: &'static str = "CREATE TABLE IF NOT EXISTS yugendb_store (
    namespace TEXT NOT NULL,
    collection TEXT NOT NULL,
    key TEXT NOT NULL,
    value BYTEA NOT NULL,
    codec TEXT NOT NULL,
    created_at TEXT NOT NULL,
    updated_at TEXT NOT NULL,
    expires_at TEXT,
    PRIMARY KEY (namespace, collection, key)
);";

/// Prefix index used by prefix scans.
pub const CREATE_PREFIX_INDEX_SQL: &'static str = "CREATE INDEX IF NOT EXISTS idx_yugendb_store_prefix ON yugendb_store(namespace, collection, key);";

/// Expiry index used by time-to-live filtering.
pub const CREATE_EXPIRES_AT_INDEX_SQL: &'static str = "CREATE INDEX IF NOT EXISTS idx_yugendb_store_expires_at ON yugendb_store(expires_at);";

/// Ordered schema statements for initial setup.
pub const ALL_SCHEMA_STATEMENTS: [&'static str; 3] = [
    CREATE_STORE_TABLE_SQL,
    CREATE_PREFIX_INDEX_SQL,
    CREATE_EXPIRES_AT_INDEX_SQL,
];

/// Returns all schema statements in execution order.
pub fn schema_statements() -> (statements: [&'static str; 3])
    ensures
        statements@ == seq![CREATE_STORE_TABLE_SQL, CREATE_PREFIX_INDEX_SQL, CREATE_EXPIRES_AT_INDEX_SQL],
{
    let statements = [CREATE_STORE_TABLE_SQL, CREATE_PREFIX_INDEX_SQL, CREATE_EXPIRES_AT_INDEX_SQL];
    assert(statements@ =~= seq![CREATE_STORE_TABLE_SQL, CREATE_PREFIX_INDEX_SQL, CREATE_EXPIRES_AT_INDEX_SQL]);
    statements
}

/// Structured schema description.
#[derive(Debug, Clone, Copy, PartialEq, Eq)]
pub struct PostgresDriverStorageSchema {
    /// Schema version.
    pub version: u32,
    /// Main storage table.
    pub store_table_name: &'static str,
    /// Migration metadata table.
    pub migration_metadata_table_name: &'static str,
    /// Binary value column type.
    pub value_column_type: &'static str,
}

impl PostgresDriverStorageSchema {
    /// Returns the current schema description.
    pub fn current() -> (schema: Self)
        ensures
            schema.version == SCHEMA_VERSION,
            schema.store_table_name == STORE_TABLE_NAME,
            schema.migration_metadata_table_name == MIGRATION_METADATA_TABLE_NAME,
            schema.value_column_type == VALUE_COLUMN_TYPE,
    {
        PostgresDriverStorageSchema {
            version: SCHEMA_VERSION,
            store_table_name: STORE_TABLE_NAME,
            migration_metadata_table_name: MIGRATION_METADATA_TABLE_NAME,
            value_column_type: VALUE_COLUMN_TYPE,
        }
    }
}

} // verus!
