//! Driver capability reporting.

use vstd::prelude::*;

verus! {

/// Feature report exposed by each driver.
#[derive(Debug, Clone, Copy, PartialEq, Eq, Structural)]
pub struct Capabilities {
    /// Driver supports transactional operation groups.
    pub transactions: bool,
    /// Driver supports time-to-live expiry.
    pub ttl: bool,
    /// Driver supports prefix scans.
    pub prefix_scan: bool,
    /// Driver supports atomic increment operations.
    pub atomic_increment: bool,
    /// Driver supports batch writes.
    pub batch_write: bool,
    /// Driver exposes a raw SQL escape hatch.
    pub raw_sql: bool,
    /// Driver exposes a document query escape hatch.
    pub document_query: bool,
    /// Driver exposes JSON query behaviour.
    pub json_query: bool,
    /// Driver supports migration helpers.
    pub migrations: bool,
    /// Driver manages connection pooling.
    pub connection_pooling: bool,
    /// Driver supports watch or subscription behaviour.
    pub watch: bool,
    /// Driver supports backup helpers.
    pub backup: bool,
}

/// The capabilities of the minimal shape.
pub open spec fn spec_minimal_capabilities() -> Capabilities {
    Capabilities {
        transactions: false,
        ttl: false,
        prefix_scan: false,
        atomic_increment: false,
        batch_write: false,
        raw_sql: false,
        document_query: false,
        json_query: false,
        migrations: false,
        connection_pooling: false,
        watch: false,
        backup: false,
    }
}

/// The capabilities of the memory shape.
pub open spec fn spec_memory_capabilities() -> Capabilities {
    Capabilities {
        transactions: false,
        ttl: true,
        prefix_scan: true,
        atomic_increment: false,
        batch_write: true,
        raw_sql: false,
        document_query: false,
        json_query: false,
        migrations: false,
        connection_pooling: false,
        watch: false,
        backup: false,
    }
}

/// The capabilities of the sqlite shape.
pub open spec fn spec_sqlite_capabilities() -> Capabilities {
    Capabilities {
        transactions: true,
        ttl: true,
        prefix_scan: true,
        atomic_increment: false,
        batch_write: true,
        raw_sql: false,
        document_query: false,
        json_query: false,
        migrations: true,
        connection_pooling: false,
        watch: false,
        backup: false,
    }
}

impl Capabilities {
    /// Minimal capability set required of every driver.
    pub fn minimal() -> (caps: Self)
        ensures
            caps == spec_minimal_capabilities(),
    {
        Capabilities {
            transactions: false,
            ttl: false,
            prefix_scan: false,
            atomic_increment: false,
            batch_write: false,
            raw_sql: false,
            document_query: false,
            json_query: false,
            migrations: false,
            connection_pooling: false,
            watch: false,
            backup: false,
        }
    }

    /// Capability shape for the memory driver.
    pub fn memory() -> (caps: Self)
        ensures
            caps == spec_memory_capabilities(),
    {
        Capabilities {
            transactions: false,
            ttl: true,
            prefix_scan: true,
            atomic_increment: false,
            batch_write: true,
            raw_sql: false,
            document_query: false,
            json_query: false,
            migrations: false,
            connection_pooling: false,
            watch: false,
            backup: false,
        }
    }

    /// Capability shape for the SQLite driver.
    pub fn sqlite() -> (caps: Self)
        ensures
            caps == spec_sqlite_capabilities(),
    {
        Capabilities {
            transactions: true,
            ttl: true,
            prefix_scan: true,
            atomic_increment: false,
            batch_write: true,
            raw_sql: false,
            document_query: false,
            json_query: false,
            migrations: true,
            connection_pooling: false,
            watch: false,
            backup: false,
        }
    }

}

impl Default for Capabilities {
    fn default() -> (caps: Self)
        ensures
            caps == spec_minimal_capabilities(),
    {
        Capabilities::minimal()
    }
}

} // verus!
