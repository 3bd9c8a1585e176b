//! Operation option types.

use vstd::prelude::*;

use crate::time::Duration;

verus! {

/// Options for read operations.
#[derive(Debug, Clone, Copy, PartialEq, Eq, Structural)]
pub struct ReadOptions {
    /// When true, a driver may return expired values.
    pub allow_expired: bool,
}

impl Default for ReadOptions {
    fn default() -> (options: Self)
        ensures
            !options.allow_expired,
    {
        ReadOptions { allow_expired: false }
    }
}

/// Options for write operations.
#[derive(Debug, Clone, Copy, PartialEq, Eq)]
pub struct WriteOptions {
    /// Optional time-to-live.
    pub ttl: Option<Duration>,
    /// When false, setting an existing live key fails with a conflict.
    pub overwrite: bool,
}

impl Default for WriteOptions {
    fn default() -> (options: Self)
        ensures
            options.ttl is None,
            options.overwrite,
    {
        WriteOptions { ttl: None, overwrite: true }
    }
}

/// Options for delete operations.
#[derive(Debug, Clone, Copy, PartialEq, Eq, Structural)]
pub struct DeleteOptions {
    /// When true, deleting a missing key fails.
    pub must_exist: bool,
}

impl Default for DeleteOptions {
    fn default() -> (options: Self)
        ensures
            !options.must_exist,
    {
        DeleteOptions { must_exist: false }
    }
}

/// Options for prefix scans.
#[derive(Debug, PartialEq, Eq)]
pub struct ScanOptions {
    /// Prefix to match against keys.
    pub prefix: Option<String>,
    /// Maximum number of records to return.
    pub limit: Option<usize>,
    /// When true, expired values are included.
    pub include_expired: bool,
}

impl Clone for ScanOptions {
    fn clone(&self) -> (copy: Self)
        ensures
            copy == *self,
    {
        ScanOptions {
            prefix: match &self.prefix {
                Some(p) => Some(p.clone()),
                None => None,
            },
            limit: self.limit,
            include_expired: self.include_expired,
        }
    }
}

impl Default for ScanOptions {
    fn default() -> (options: Self)
        ensures
            options.prefix is None,
            options.limit is None,
            !options.include_expired,
    {
        ScanOptions { prefix: None, limit: None, include_expired: false }
    }
}

} // verus!
