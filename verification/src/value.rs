//! Stored byte values and their metadata.

use vstd::prelude::*;

use vstd::std_specs::convert::FromSpecImpl;

use crate::time::{timestamp_le, utc_now, Timestamp, NANOS_PER_SEC};

verus! {

/// The byte buffer type of the `bytes` crate.
#[verifier::external_type_specification]
#[verifier::external_body]
pub struct ExBytes(bytes::Bytes);

/// The bytes that a `bytes::Bytes` buffer holds.
pub uninterp spec fn bytes_contents(buffer: bytes::Bytes) -> Seq<u8>;

/// Moves a vector into a shared byte buffer.
///
/// Calls `<bytes::Bytes as From<Vec<u8>>>::from`, which takes over the
/// vector's allocation; claims that the buffer holds the vector's bytes.
#[verifier::external_body]
fn bytes_from_vec(bytes: Vec<u8>) -> (buffer: bytes::Bytes)
    ensures
        bytes_contents(buffer) == bytes@,
{
    bytes::Bytes::from(bytes)
}

/// Borrows the bytes of a buffer.
///
/// Calls `<bytes::Bytes as AsRef<[u8]>>::as_ref`; claims that the slice holds
/// the buffer's bytes.
#[verifier::external_body]
fn bytes_as_slice(buffer: &bytes::Bytes) -> (slice: &[u8])
    ensures
        slice@ == bytes_contents(*buffer),
{
    buffer.as_ref()
}

/// Clones a byte buffer.
///
/// Calls `<bytes::Bytes as Clone>::clone`, which shares the same bytes;
/// claims that the copy holds the same bytes.
#[verifier::external_body]
fn bytes_clone(buffer: &bytes::Bytes) -> (copy: bytes::Bytes)
    ensures
        bytes_contents(copy) == bytes_contents(*buffer),
{
    buffer.clone()
}

/// Opaque serialised value bytes.
#[derive(Debug, PartialEq, Eq)]
pub struct ValueBytes(bytes::Bytes);

impl View for ValueBytes {
    type V = Seq<u8>;

    closed spec fn view(&self) -> Seq<u8> {
        bytes_contents(self.0)
    }
}

impl ValueBytes {
    /// Creates value bytes from a byte vector.
    pub fn new(bytes: Vec<u8>) -> (value: Self)
        ensures
            value@ == bytes@,
    {
        ValueBytes(bytes_from_vec(bytes))
    }

    /// Wraps an existing byte buffer.
    pub fn from_bytes(buffer: bytes::Bytes) -> (value: Self)
        ensures
            value@ == bytes_contents(buffer),
    {
        ValueBytes(buffer)
    }

    /// Returns the bytes as a slice.
    pub fn as_slice(&self) -> (slice: &[u8])
        ensures
            slice@ == self@,
    {
        bytes_as_slice(&self.0)
    }

    /// Returns the number of bytes.
    pub fn len(&self) -> (len: usize)
        ensures
            len == self@.len(),
    {
        self.as_slice().len()
    }

    /// Returns true when there are no bytes.
    pub fn is_empty(&self) -> (empty: bool)
        ensures
            empty == (self@.len() == 0),
    {
        self.len() == 0
    }

    /// Converts into the inner byte buffer.
    pub fn into_inner(self) -> (buffer: bytes::Bytes)
        ensures
            bytes_contents(buffer) == self@,
    {
        self.0
    }
}

impl Clone for ValueBytes {
    fn clone(&self) -> (copy: Self)
        ensures
            copy@ == self@,
    {
        ValueBytes(bytes_clone(&self.0))
    }
}

impl FromSpecImpl<Vec<u8>> for ValueBytes {
    open spec fn obeys_from_spec() -> bool {
        false
    }

    open spec fn from_spec(bytes: Vec<u8>) -> ValueBytes {
        arbitrary()
    }
}

impl From<Vec<u8>> for ValueBytes {
    fn from(bytes: Vec<u8>) -> (value: Self)
        ensures
            value@ == bytes@,
    {
        ValueBytes::new(bytes)
    }
}

impl AsRef<[u8]> for ValueBytes {
    fn as_ref(&self) -> (slice: &[u8])
        ensures
            slice@ == self@,
    {
        self.as_slice()
    }
}

/// Metadata stored alongside a serialised value.
#[derive(Debug, PartialEq, Eq)]
pub struct ValueMetadata {
    /// Codec name used to serialise the value.
    pub codec: String,
    /// Creation time in UTC.
    pub created_at: Timestamp,
    /// Last update time in UTC.
    pub updated_at: Timestamp,
    /// Expiry time in UTC, when a time-to-live is used.
    pub expires_at: Option<Timestamp>,
}

/// Whether metadata with expiry `expires_at` has expired at `now`: its expiry
/// time is at or before `now`.
pub open spec fn expired_at(expires_at: Option<Timestamp>, now: Timestamp) -> bool {
    match expires_at {
        Some(t) => timestamp_le(t, now),
        None => false,
    }
}

impl ValueMetadata {
    /// Creates metadata using the same time for creation and update.
    pub fn new(codec: &str, now: Timestamp, expires_at: Option<Timestamp>) -> (metadata: Self)
        ensures
            metadata.codec@ == codec@,
            metadata.created_at == now,
            metadata.updated_at == now,
            metadata.expires_at == expires_at,
    {
        ValueMetadata { codec: codec.to_owned(), created_at: now, updated_at: now, expires_at }
    }

    /// Returns true when the expiry time is at or before `now`.
    pub fn is_expired_at(&self, now: Timestamp) -> (expired: bool)
        ensures
            expired == expired_at(self.expires_at, now),
    {
        match self.expires_at {
            Some(t) => t.is_at_or_before(&now),
            None => false,
        }
    }
}

impl Clone for ValueMetadata {
    fn clone(&self) -> (copy: Self)
        ensures
            copy.codec@ == self.codec@,
            copy.created_at == self.created_at,
            copy.updated_at == self.updated_at,
            copy.expires_at == self.expires_at,
    {
        ValueMetadata {
            codec: self.codec.clone(),
            created_at: self.created_at,
            updated_at: self.updated_at,
            expires_at: self.expires_at,
        }
    }
}

/// A serialised value and its metadata.
#[derive(Debug, PartialEq, Eq)]
pub struct StoredValue {
    /// Serialised value bytes.
    pub bytes: ValueBytes,
    /// Stored value metadata.
    pub metadata: ValueMetadata,
}

/// What a stored value holds: its bytes and its metadata.
pub struct StoredValueView {
    /// Serialised value bytes.
    pub bytes: Seq<u8>,
    /// Codec name.
    pub codec: Seq<char>,
    /// Creation time.
    pub created_at: Timestamp,
    /// Last update time.
    pub updated_at: Timestamp,
    /// Expiry time, if any.
    pub expires_at: Option<Timestamp>,
}

impl View for StoredValue {
    type V = StoredValueView;

    open spec fn view(&self) -> StoredValueView {
        StoredValueView {
            bytes: self.bytes@,
            codec: self.metadata.codec@,
            created_at: self.metadata.created_at,
            updated_at: self.metadata.updated_at,
            expires_at: self.metadata.expires_at,
        }
    }
}

impl StoredValue {
    /// Creates a stored value.
    pub fn new(bytes: ValueBytes, metadata: ValueMetadata) -> (value: Self)
        ensures
            value.bytes == bytes,
            value.metadata == metadata,
    {
        StoredValue { bytes, metadata }
    }

    /// Returns true when the value has expired at `now`.
    pub fn is_expired_at(&self, now: Timestamp) -> (expired: bool)
        ensures
            expired == expired_at(self.metadata.expires_at, now),
    {
        self.metadata.is_expired_at(now)
    }

    /// Returns true when the value has expired at the current time. A value
    /// without an expiry time never expires.
    pub fn is_expired(&self) -> (expired: bool)
        ensures
            exists|now: Timestamp| now.nanos < NANOS_PER_SEC && #[trigger] expired_at(self.metadata.expires_at, now) == expired,
            self.metadata.expires_at is None ==> !expired,
    {
        self.is_expired_at(utc_now())
    }
}

impl Clone for StoredValue {
    fn clone(&self) -> (copy: Self)
        ensures
            copy@ == self@,
    {
        StoredValue { bytes: self.bytes.clone(), metadata: self.metadata.clone() }
    }
}

} // verus!
