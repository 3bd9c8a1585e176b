//! SQLite storage schema and driver configuration.
//!
//! The SQLite driver stores records in one table keyed by namespace,
//! collection and key: `namespace + collection + key -> serialised typed value`.

use vstd::prelude::*;

use crate::capabilities::Capabilities;
use crate::locks::empty_slot;

verus! {

/// Current schema version for the SQLite storage table.
pub const SCHEMA_VERSION: u32 = 1;

/// Main storage table used by the SQLite backend.
pub const STORE_TABLE_NAME: &'static str = "yugendb_store";

/// Metadata table used for SQLite schema migration bookkeeping.
pub const MIGRATION_METADATA_TABLE_NAME: &'static str = "yugendb_schema_migrations";

/// SQL statement that creates the main storage table.
pub const CREATE_STORE_TABLE_SQL: &'static str = "CREATE TABLE IF NOT EXISTS yugendb_store (
    namespace TEXT NOT NULL,
    collection TEXT NOT NULL,
    key TEXT NOT NULL,
    value BLOB NOT NULL,
    codec TEXT NOT NULL,
    created_at TEXT NOT NULL,
    updated_at TEXT NOT NULL,
    expires_at TEXT,
    PRIMARY KEY (namespace, collection, key)
);";

/// SQL statement that creates the prefix scan index.
pub const CREATE_PREFIX_INDEX_SQL: &'static str = "CREATE INDEX IF NOT EXISTS idx_yugendb_store_prefix
ON yugendb_store(namespace, collection, key);";

/// SQL statement that creates the expiry lookup index.
pub const CREATE_EXPIRES_AT_INDEX_SQL: &'static str = "CREATE INDEX IF NOT EXISTS idx_yugendb_store_expires_at
ON yugendb_store(expires_at);";

/// SQL statement that creates schema migration bookkeeping.
pub const CREATE_MIGRATION_METADATA_TABLE_SQL: &'static str = "CREATE TABLE IF NOT EXISTS yugendb_schema_migrations (
    version INTEGER PRIMARY KEY,
    applied_at TEXT NOT NULL
);";

/// All SQL statements needed to initialise the current SQLite schema.
pub const ALL_SCHEMA_STATEMENTS: [&'static str; 4] = [
    CREATE_STORE_TABLE_SQL,
    CREATE_PREFIX_INDEX_SQL,
    CREATE_EXPIRES_AT_INDEX_SQL,
    CREATE_MIGRATION_METADATA_TABLE_SQL,
];

/// The schema statements in execution order.
pub open spec fn schema_statement_seq() -> Seq<&'static str> {
    seq![
        CREATE_STORE_TABLE_SQL,
        CREATE_PREFIX_INDEX_SQL,
        CREATE_EXPIRES_AT_INDEX_SQL,
        CREATE_MIGRATION_METADATA_TABLE_SQL,
    ]
}

/// Returns all SQL statements needed to initialise the current SQLite schema.
pub fn schema_statements() -> (statements: &'static [&'static str])
    ensures
        statements@ == schema_statement_seq(),
{
    let statements: &'static [&'static str] = &ALL_SCHEMA_STATEMENTS;
    assert(statements@ =~= schema_statement_seq());
    statements
}

/// Value object that describes the SQLite storage schema.
#[derive(Debug, Clone, Copy, PartialEq, Eq)]
pub struct SqliteStorageSchema {
    /// Schema version.
    pub version: u32,
    /// Main store table name.
    pub store_table_name: &'static str,
    /// Migration metadata table name.
    pub migration_metadata_table_name: &'static str,
    /// Ordered SQL statements for schema creation.
    pub statements: &'static [&'static str],
}

impl SqliteStorageSchema {
    /// Returns the current SQLite storage schema description.
    pub fn current() -> (schema: Self)
        ensures
            schema.version == SCHEMA_VERSION,
            schema.store_table_name == STORE_TABLE_NAME,
            schema.migration_metadata_table_name == MIGRATION_METADATA_TABLE_NAME,
            schema.statements@ == schema_statement_seq(),
    {
        SqliteStorageSchema {
            version: SCHEMA_VERSION,
            store_table_name: STORE_TABLE_NAME,
            migration_metadata_table_name: MIGRATION_METADATA_TABLE_NAME,
            statements: schema_statements(),
        }
    }
}

/// Options used to configure the SQLite driver.
#[derive(Debug, PartialEq, Eq)]
pub struct SqliteDriverOptions {
    /// Filesystem path or SQLite connection target.
    pub path: String,
    /// Whether the database file should be created if it is missing.
    pub create_if_missing: bool,
}

impl SqliteDriverOptions {
    /// Creates default SQLite options for a path: the file is created if missing.
    pub fn new(path: &str) -> (options: Self)
        ensures
            options.path@ == path@,
            options.create_if_missing,
    {
        SqliteDriverOptions { path: path.to_owned(), create_if_missing: true }
    }
}

impl Clone for SqliteDriverOptions {
    fn clone(&self) -> (copy: Self)
        ensures
            copy.path@ == self.path@,
            copy.create_if_missing == self.create_if_missing,
    {
        SqliteDriverOptions { path: self.path.clone(), create_if_missing: self.create_if_missing }
    }
}

/// The capabilities of the SQLite driver.
pub open spec fn spec_sqlite_driver_capabilities() -> Capabilities {
    Capabilities {
        transactions: true,
        ttl: true,
        prefix_scan: true,
        atomic_increment: false,
        batch_write: true,
        raw_sql: false,
        document_query: false,
        json_query: false,
        migrations: true,
        connection_pooling: false,
        watch: false,
        backup: false,
    }
}

/// Capabilities for the implemented SQLite driver.
pub fn sqlite_capabilities() -> (caps: Capabilities)
    ensures
        caps == spec_sqlite_driver_capabilities(),
{
    Capabilities {
        transactions: true,
        ttl: true,
        prefix_scan: true,
        atomic_increment: false,
        batch_write: true,
        raw_sql: false,
        document_query: false,
        json_query: false,
        migrations: true,
        connection_pooling: false,
        watch: false,
        backup: false,
    }
}

/// The connection type of `rusqlite`.
#[verifier::external_type_specification]
#[verifier::external_body]
pub struct ExSqliteConnection(rusqlite::Connection);

/// SQLite driver for durable local storage. The connection is opened when
/// the driver is initialised.
#[derive(Debug)]
pub struct SqliteDriver {
    options: SqliteDriverOptions,
    connection: parking_lot::Mutex<Option<rusqlite::Connection>>,
}

impl SqliteDriver {
    /// The configured options.
    pub closed spec fn spec_options(&self) -> SqliteDriverOptions {
        self.options
    }

    /// Creates a new SQLite driver using default options.
    pub fn new(path: &str) -> (driver: Self)
        ensures
            driver.spec_options().path@ == path@,
            driver.spec_options().create_if_missing,
    {
        Self::with_options(SqliteDriverOptions::new(path))
    }

    /// Creates a new SQLite driver with explicit options.
    pub fn with_options(options: SqliteDriverOptions) -> (driver: Self)
        ensures
            driver.spec_options() == options,
    {
        SqliteDriver { options, connection: empty_slot() }
    }

    /// Returns the configured options.
    pub fn options(&self) -> (options: &SqliteDriverOptions)
        ensures
            *options == self.spec_options(),
    {
        &self.options
    }

    /// Returns the SQLite storage schema description.
    pub fn schema(&self) -> (schema: SqliteStorageSchema)
        ensures
            schema.version == SCHEMA_VERSION,
            schema.store_table_name == STORE_TABLE_NAME,
            schema.migration_metadata_table_name == MIGRATION_METADATA_TABLE_NAME,
            schema.statements@ == schema_statement_seq(),
    {
        SqliteStorageSchema::current()
    }

    /// The slot that the driver holds its connection in.
    pub closed spec fn spec_connection_slot(&self) -> parking_lot::Mutex<Option<rusqlite::Connection>> {
        self.connection
    }

    /// The slot that holds the open connection, empty until initialisation.
    pub fn connection_slot(&self) -> (slot: &parking_lot::Mutex<Option<rusqlite::Connection>>)
        ensures
            *slot == self.spec_connection_slot(),
    {
        &self.connection
    }

    /// Stable driver name.
    pub fn name(&self) -> (name: &'static str)
        ensures
            name@ == "sqlite"@,
    {
        "sqlite"
    }

    /// Reports supported driver behaviour.
    pub fn capabilities(&self) -> (caps: Capabilities)
        ensures
            caps == spec_sqlite_driver_capabilities(),
    {
        sqlite_capabilities()
    }
}

impl Clone for SqliteDriver {
    /// A clone is configured the same way but owns a separate, not yet opened connection.
    fn clone(&self) -> (copy: Self)
        ensures
            copy.spec_options().path@ == self.spec_options().path@,
            copy.spec_options().create_if_missing == self.spec_options().create_if_missing,
    {
        Self::with_options(self.options.clone())
    }
}

/// Convenience constructor for the SQLite driver.
pub fn sqlite(path: &str) -> (driver: SqliteDriver)
    ensures
        driver.spec_options().path@ == path@,
        driver.spec_options().create_if_missing,
{
    SqliteDriver::new(path)
}

} // verus!
