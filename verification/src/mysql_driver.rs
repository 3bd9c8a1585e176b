//! MySQL driver configuration.

use vstd::prelude::*;

use crate::capabilities::Capabilities;
use crate::error::{code_of, ErrorCode, YugenDbError};
use crate::key::message_of;

verus! {

/// The error type of `sqlx`.
#[verifier::external_type_specification]
#[verifier::external_body]
pub struct ExSqlxError(sqlx::Error);

/// How the MySQL driver classes a failure of `sqlx`.
#[derive(Debug, Clone, Copy, PartialEq, Eq, Structural)]
pub enum MysqlFailureKind {
    /// A query that had to return a row returned none.
    RowNotFound,
    /// The pool timed out, or the connection failed in I/O or TLS.
    Connection,
    /// Any other failure.
    Other,
}

/// The variants of `sqlx::Error` that the MySQL driver tells apart.
#[derive(Debug, Clone, Copy, PartialEq, Eq, Structural)]
pub enum SqlxErrorVariant {
    /// `sqlx::Error::RowNotFound`.
    RowNotFound,
    /// `sqlx::Error::PoolTimedOut`.
    PoolTimedOut,
    /// `sqlx::Error::Io`.
    Io,
    /// `sqlx::Error::Tls`.
    Tls,
    /// Any other variant.
    Other,
}

/// Which variant of `sqlx::Error` an error is.
pub uninterp spec fn sqlx_variant_of(error: sqlx::Error) -> SqlxErrorVariant;

/// Tells which variant of `sqlx::Error` an error is, one arm per variant;
/// the answer depends on the error alone (named `sqlx_variant_of`).
#[verifier::external_body]
fn sqlx_error_variant(error: &sqlx::Error) -> (variant: SqlxErrorVariant)
    ensures
        variant == sqlx_variant_of(*error),
{
    match error {
        sqlx::Error::RowNotFound => SqlxErrorVariant::RowNotFound,
        sqlx::Error::PoolTimedOut => SqlxErrorVariant::PoolTimedOut,
        sqlx::Error::Io(_) => SqlxErrorVariant::Io,
        sqlx::Error::Tls(_) => SqlxErrorVariant::Tls,
        _ => SqlxErrorVariant::Other,
    }
}

/// How the MySQL driver classes each variant: a missing row is not found; a
/// pool timeout and I/O and TLS failures are connection failures; the rest
/// are other failures.
pub open spec fn failure_kind_of(variant: SqlxErrorVariant) -> MysqlFailureKind {
    match variant {
        SqlxErrorVariant::RowNotFound => MysqlFailureKind::RowNotFound,
        SqlxErrorVariant::PoolTimedOut => MysqlFailureKind::Connection,
        SqlxErrorVariant::Io => MysqlFailureKind::Connection,
        SqlxErrorVariant::Tls => MysqlFailureKind::Connection,
        SqlxErrorVariant::Other => MysqlFailureKind::Other,
    }
}

/// Classes a variant of `sqlx::Error` as the MySQL driver reports it.
pub fn failure_kind(variant: SqlxErrorVariant) -> (kind: MysqlFailureKind)
    ensures
        kind == failure_kind_of(variant),
{
    match variant {
        SqlxErrorVariant::RowNotFound => MysqlFailureKind::RowNotFound,
        SqlxErrorVariant::PoolTimedOut => MysqlFailureKind::Connection,
        SqlxErrorVariant::Io => MysqlFailureKind::Connection,
        SqlxErrorVariant::Tls => MysqlFailureKind::Connection,
        SqlxErrorVariant::Other => MysqlFailureKind::Other,
    }
}

/// The message of a `sqlx` error.
///
/// Calls `ToString::to_string` through `sqlx::Error`'s `Display`; nothing is
/// claimed of the text.
#[verifier::external_body]
fn sqlx_error_message(error: &sqlx::Error) -> (message: String) {
    error.to_string()
}

/// The error reported for a failure of the MySQL driver: not found for a
/// missing row, a connection error for a failed connection, a driver error
/// of `mysql` otherwise.
pub fn mysql_failure(kind: MysqlFailureKind, message: &str) -> (error: YugenDbError)
    ensures
        mysql_failure_of(kind, message@, error),
{
    match kind {
        MysqlFailureKind::RowNotFound => {
            proof {
                reveal_strlit("MySQL row was not found");
            }
            YugenDbError::not_found("MySQL row was not found")
        },
        MysqlFailureKind::Connection => YugenDbError::connection_error(message),
        MysqlFailureKind::Other => YugenDbError::driver_error("mysql", message),
    }
}

/// Whether `error` is what `mysql_failure` reports for `kind` and `message`.
pub open spec fn mysql_failure_of(kind: MysqlFailureKind, message: Seq<char>, error: YugenDbError) -> bool {
    match kind {
        MysqlFailureKind::RowNotFound => code_of(error) == ErrorCode::NotFound && message_of(error)
            == "MySQL row was not found"@,
        MysqlFailureKind::Connection => code_of(error) == ErrorCode::ConnectionError && message_of(error) == message,
        MysqlFailureKind::Other => (error matches YugenDbError::DriverError { driver, .. } && driver@ == "mysql"@)
            && message_of(error) == message,
    }
}

/// Maps a `sqlx` error to a structured error of the MySQL driver: not found
/// for a missing row, a connection error for a pool timeout or an I/O or TLS
/// failure, a driver error of `mysql` otherwise, the last two with `sqlx`'s
/// message.
pub fn map_mysql_error(error: &sqlx::Error) -> (mapped: YugenDbError)
    ensures
        exists|message: Seq<char>| #[trigger] mysql_failure_of(
            failure_kind_of(sqlx_variant_of(*error)),
            message,
            mapped,
        ),
{
    let variant = sqlx_error_variant(error);
    let kind = failure_kind(variant);
    let message = sqlx_error_message(error);
    let mapped = mysql_failure(kind, message.as_str());
    assert(mysql_failure_of(failure_kind_of(variant), message@, mapped));
    mapped
}

/// Options used to configure the MySQL driver.
#[derive(Debug, PartialEq, Eq)]
pub struct MysqlDriverOptions {
    /// Backend connection string.
    pub connection_string: String,
    /// Whether the storage schema should be created during initialisation.
    pub create_schema_on_initialise: bool,
    /// Maximum number of pooled connections.
    pub max_connections: u32,
}

impl MysqlDriverOptions {
    /// Creates default options for a connection string: the schema is created
    /// on initialisation and at most five connections are pooled.
    pub fn new(connection_string: &str) -> (options: Self)
        ensures
            options.connection_string@ == connection_string@,
            options.create_schema_on_initialise,
            options.max_connections == 5,
    {
        MysqlDriverOptions {
            connection_string: connection_string.to_owned(),
            create_schema_on_initialise: true,
            max_connections: 5,
        }
    }
}

impl Clone for MysqlDriverOptions {
    fn clone(&self) -> (copy: Self)
        ensures
            copy.connection_string@ == self.connection_string@,
            copy.create_schema_on_initialise == self.create_schema_on_initialise,
            copy.max_connections == self.max_connections,
    {
        MysqlDriverOptions {
            connection_string: self.connection_string.clone(),
            create_schema_on_initialise: self.create_schema_on_initialise,
            max_connections: self.max_connections,
        }
    }
}

/// The capabilities of the MySQL driver.
pub open spec fn spec_mysql_capabilities() -> Capabilities {
    Capabilities {
        transactions: true,
        ttl: true,
        prefix_scan: true,
        atomic_increment: false,
        batch_write: true,
        raw_sql: false,
        document_query: false,
        json_query: false,
        migrations: true,
        connection_pooling: true,
        watch: false,
        backup: false,
    }
}

/// Capabilities for the implemented MySQL driver.
pub fn mysql_capabilities() -> (caps: Capabilities)
    ensures
        caps == spec_mysql_capabilities(),
{
    Capabilities {
        transactions: true,
        ttl: true,
        prefix_scan: true,
        atomic_increment: false,
        batch_write: true,
        raw_sql: false,
        document_query: false,
        json_query: false,
        migrations: true,
        connection_pooling: true,
        watch: false,
        backup: false,
    }
}

} // verus!
