//! Redis driver configuration and the parts of the driver that compute.
//!
//! Redis stores each record at a key derived from the namespace, collection
//! and key (see [`crate::keyspace`]).

use base64::Engine;
use vstd::prelude::*;

use crate::capabilities::Capabilities;
use crate::error::{code_of, ErrorCode, YugenDbError};
use crate::key::{message_of, CollectionName, Key, Namespace};
use crate::order::push_char;
use crate::time::{instant, NANOS_PER_SEC, optional_timestamp_to_text, parse_optional_timestamp, parse_timestamp, rfc3339_text, timestamp_to_text, Timestamp};
use crate::record::{optional_text, record_value, times_round_trip};
use crate::value::{StoredValue, StoredValueView, ValueBytes, ValueMetadata};
use crate::keyspace::{joined_key, redis_key, redis_prefix, RedisKeyspace, DEFAULT_KEY_PREFIX};

verus! {

/// The client type of the `redis` crate.
#[verifier::external_type_specification]
#[verifier::external_body]
pub struct ExRedisClient(::redis::Client);

/// The error type of the `redis` crate.
#[verifier::external_type_specification]
#[verifier::external_body]
pub struct ExRedisError(::redis::RedisError);

/// Whether the `redis` crate accepts a connection string as a Redis URL.
pub uninterp spec fn redis_url_accepted(connection_string: Seq<char>) -> bool;

/// Opens a client for a connection string, without connecting.
///
/// Calls `::redis::Client::open`, which only parses the connection string;
/// claims that it succeeds exactly when the string is accepted, a property of
/// the string alone (named `redis_url_accepted`).
#[verifier::external_body]
fn open_client(connection_string: &str) -> (client: Result<::redis::Client, ::redis::RedisError>)
    ensures
        client is Ok <==> redis_url_accepted(connection_string@),
{
    ::redis::Client::open(connection_string)
}

/// Clones a client.
///
/// Calls `<::redis::Client as Clone>::clone`; nothing is claimed of the copy,
/// which is opaque here.
#[verifier::external_body]
fn clone_client(client: &::redis::Client) -> (copy: ::redis::Client) {
    client.clone()
}

/// The message of a Redis error.
///
/// Calls `ToString::to_string` through `::redis::RedisError`'s `Display`;
/// nothing is claimed of the text.
#[verifier::external_body]
fn redis_error_message(error: &::redis::RedisError) -> (message: String) {
    error.to_string()
}

/// Whether the `redis` crate reports an error as a timed-out operation: an
/// I/O error of kind `TimedOut` or `WouldBlock`.
pub uninterp spec fn redis_timed_out(error: ::redis::RedisError) -> bool;

/// Whether a Redis error reports a timed-out operation.
///
/// Calls `::redis::RedisError::is_timeout`, whose answer depends on the error
/// alone (named `redis_timed_out`).
#[verifier::external_body]
fn redis_error_is_timeout(error: &::redis::RedisError) -> (timed_out: bool)
    ensures
        timed_out == redis_timed_out(*error),
{
    error.is_timeout()
}

/// The standard base64 text of some bytes, with padding.
pub uninterp spec fn base64_text(bytes: Seq<u8>) -> Seq<char>;

/// The bytes that a standard base64 text stands for, or `None` where the
/// text is not valid standard base64.
pub uninterp spec fn base64_bytes(text: Seq<char>) -> Option<Seq<u8>>;

/// The error type of base64 decoding.
#[verifier::external_type_specification]
#[verifier::external_body]
pub struct ExBase64DecodeError(base64::DecodeError);

/// Encodes bytes as standard base64 with padding.
///
/// Calls `base64::engine::general_purpose::STANDARD.encode`; claims that the
/// text is a function of the bytes (named `base64_text`) and that the same
/// engine decodes it back to the bytes, as the crate documents of its
/// engines. The length bound keeps the encoded length from overflowing,
/// where the encoder panics.
#[verifier::external_body]
fn base64_encode(bytes: &[u8]) -> (text: String)
    requires
        bytes@.len() <= usize::MAX / 2,
    ensures
        text@ == base64_text(bytes@),
        base64_bytes(text@) == Some(bytes@),
{
    base64::engine::general_purpose::STANDARD.encode(bytes)
}

/// Decodes standard base64 with padding.
///
/// Calls `base64::engine::general_purpose::STANDARD.decode`; claims that the
/// result is a function of the text (named `base64_bytes`).
#[verifier::external_body]
fn base64_decode(text: &str) -> (bytes: Result<Vec<u8>, base64::DecodeError>)
    ensures
        bytes is Ok <==> base64_bytes(text@) is Some,
        bytes matches Ok(b) ==> base64_bytes(text@) == Some(b@),
{
    base64::engine::general_purpose::STANDARD.decode(text)
}

/// The message of a base64 decoding error.
///
/// Calls `ToString::to_string` through `base64::DecodeError`'s `Display`;
/// nothing is claimed of the text.
#[verifier::external_body]
fn base64_error_message(error: &base64::DecodeError) -> (message: String) {
    error.to_string()
}

/// How Redis holds one record: the value in base64, the codec, and the
/// times as RFC 3339 text. It is stored as JSON at the record's Redis key.
#[derive(Debug, PartialEq, Eq)]
pub struct RedisEnvelope {
    /// Base64 of the serialised value.
    pub value: String,
    /// Codec name.
    pub codec: String,
    /// Creation time.
    pub created_at: String,
    /// Last update time.
    pub updated_at: String,
    /// Expiry time, if any.
    pub expires_at: Option<String>,
}

/// The envelope that holds a stored value, where all of its times can be
/// written as RFC 3339.
pub open spec fn envelope_of(value: StoredValueView) -> Option<(Seq<char>, Seq<char>, Seq<char>, Seq<char>, Option<Seq<char>>)> {
    match (rfc3339_text(value.created_at.secs, value.created_at.nanos), rfc3339_text(value.updated_at.secs, value.updated_at.nanos)) {
        (Some(created), Some(updated)) => match value.expires_at {
            None => Some((base64_text(value.bytes), value.codec, created, updated, None)),
            Some(t) => match rfc3339_text(t.secs, t.nanos) {
                Some(expires) => Some((base64_text(value.bytes), value.codec, created, updated, Some(expires))),
                None => None,
            },
        },
        _ => None,
    }
}

/// The stored value that an envelope holds, where its value is valid base64
/// and all of its times parse.
pub open spec fn value_of_envelope(value: Seq<char>, codec: Seq<char>, created_at: Seq<char>, updated_at: Seq<char>, expires_at: Option<Seq<char>>) -> Option<StoredValueView> {
    match base64_bytes(value) {
        Some(bytes) => record_value(bytes, codec, created_at, updated_at, expires_at),
        None => None,
    }
}

/// Builds the Redis envelope of a stored value.
pub fn envelope_from_value(value: &StoredValue) -> (envelope: Result<RedisEnvelope, YugenDbError>)
    requires
        value.bytes@.len() <= usize::MAX / 2,
    ensures
        match envelope_of(value@) {
            Some(parts) => envelope matches Ok(e) && (e.value@, e.codec@, e.created_at@, e.updated_at@, optional_text(e.expires_at)) == parts,
            None => envelope is Err,
        },
        times_round_trip(value@) ==> (envelope matches Ok(e) && value_of_envelope(
            e.value@,
            e.codec@,
            e.created_at@,
            e.updated_at@,
            optional_text(e.expires_at),
        ) == Some(value@)),
{
    let created_at = match timestamp_to_text(value.metadata.created_at) {
        Ok(t) => t,
        Err(e) => {
            return Err(e);
        },
    };
    let updated_at = match timestamp_to_text(value.metadata.updated_at) {
        Ok(t) => t,
        Err(e) => {
            return Err(e);
        },
    };
    let expires_at = match optional_timestamp_to_text(value.metadata.expires_at) {
        Ok(t) => t,
        Err(e) => {
            return Err(e);
        },
    };
    Ok(RedisEnvelope {
        value: base64_encode(value.bytes.as_slice()),
        codec: value.metadata.codec.clone(),
        created_at,
        updated_at,
        expires_at,
    })
}

/// Reads the stored value out of a Redis envelope. A value that is not valid
/// base64, or a time that does not parse, is reported as a Redis driver error.
pub fn value_from_envelope(envelope: RedisEnvelope) -> (value: Result<StoredValue, YugenDbError>)
    ensures
        match value_of_envelope(envelope.value@, envelope.codec@, envelope.created_at@, envelope.updated_at@, optional_text(envelope.expires_at)) {
            Some(v) => value matches Ok(stored) && stored@ == v,
            None => value matches Err(e) && (e matches YugenDbError::DriverError { driver: d, .. } && d@ == "redis"@),
        },
{
    let bytes = match base64_decode(envelope.value.as_str()) {
        Ok(b) => b,
        Err(error) => {
            let message = base64_error_message(&error);
            return Err(YugenDbError::driver_error("redis", message.as_str()));
        },
    };
    let created_at = match parse_timestamp("redis", envelope.created_at.as_str()) {
        Ok(t) => t,
        Err(e) => {
            return Err(e);
        },
    };
    let updated_at = match parse_timestamp("redis", envelope.updated_at.as_str()) {
        Ok(t) => t,
        Err(e) => {
            return Err(e);
        },
    };
    let expires_text: Option<&str> = match &envelope.expires_at {
        Some(t) => Some(t.as_str()),
        None => None,
    };
    let expires_at = match parse_optional_timestamp("redis", expires_text) {
        Ok(t) => t,
        Err(e) => {
            return Err(e);
        },
    };
    Ok(StoredValue::new(
        ValueBytes::new(bytes),
        ValueMetadata { codec: envelope.codec, created_at, updated_at, expires_at },
    ))
}

/// The largest number of seconds from the epoch, either way, that a
/// timestamp passed to [`expiry_millis`] may hold; it covers every date that
/// `chrono` represents.
pub const EXPIRY_SECS_BOUND: i64 = 8_796_093_022_208i64;

/// The whole milliseconds in `nanos` nanoseconds, rounded toward zero.
pub open spec fn millis_toward_zero(nanos: int) -> int {
    if nanos >= 0 {
        nanos / 1_000_000
    } else {
        -((-nanos) / 1_000_000)
    }
}

/// The second of the day that a moment falls in.
pub open spec fn second_of_day(t: Timestamp) -> int {
    (t.secs as int) % 86_400
}

/// The correction for a leap second that `chrono` makes when it subtracts
/// two times: a leap second of the earlier time of day still counts when the
/// later one is past it.
pub open spec fn leap_adjustment(later: Timestamp, earlier: Timestamp) -> int {
    if second_of_day(later) > second_of_day(earlier) && earlier.nanos >= NANOS_PER_SEC {
        1
    } else if second_of_day(later) < second_of_day(earlier) && later.nanos >= NANOS_PER_SEC {
        -1
    } else {
        0
    }
}

/// The span in nanoseconds that `chrono` gives for `later - earlier`.
pub open spec fn span_nanos(later: Timestamp, earlier: Timestamp) -> int {
    instant(later) - instant(earlier) + leap_adjustment(later, earlier) * NANOS_PER_SEC
}

/// The time-to-live, in milliseconds, that Redis is given for a value that
/// expires at `expires_at` when it is written at `now`: the whole
/// milliseconds between them, and at least one.
pub open spec fn spec_expiry_millis(expires_at: Timestamp, now: Timestamp) -> int {
    let millis = millis_toward_zero(span_nanos(expires_at, now));
    if millis < 1 {
        1
    } else {
        millis
    }
}

/// A multiple of a day that is larger than every second bound here, so that
/// adding it makes a number of seconds non-negative without changing its
/// second of the day.
const DAY_MULTIPLE_SECS: i64 = 8_796_384_000_000i64;

/// The second of the day of a moment.
fn day_second(t: Timestamp) -> (second: u64)
    requires
        -EXPIRY_SECS_BOUND <= t.secs <= EXPIRY_SECS_BOUND,
    ensures
        second == second_of_day(t),
{
    proof {
        vstd::arithmetic::div_mod::lemma_mod_multiples_vanish(101_810_000, t.secs as int, 86_400);
    }
    ((t.secs + DAY_MULTIPLE_SECS) as u64) % 86_400
}

/// Computes the time-to-live, in milliseconds, that Redis is given for a
/// value expiring at `expires_at` and written at `now`, leap seconds counted
/// as `chrono` counts them. A value that is due already gets one millisecond.
pub fn expiry_millis(expires_at: Timestamp, now: Timestamp) -> (millis: i64)
    requires
        -EXPIRY_SECS_BOUND <= expires_at.secs <= EXPIRY_SECS_BOUND,
        -EXPIRY_SECS_BOUND <= now.secs <= EXPIRY_SECS_BOUND,
    ensures
        millis == spec_expiry_millis(expires_at, now),
{
    let later_second = day_second(expires_at);
    let earlier_second = day_second(now);
    let adjustment: i128 = if later_second > earlier_second && now.nanos >= NANOS_PER_SEC {
        1
    } else if later_second < earlier_second && expires_at.nanos >= NANOS_PER_SEC {
        -1
    } else {
        0
    };
    let difference: i128 = (expires_at.secs as i128 - now.secs as i128 + adjustment) * 1_000_000_000i128 + (
    expires_at.nanos as i128 - now.nanos as i128);
    assert(difference == span_nanos(expires_at, now));
    let millis: i128 = if difference >= 0 {
        difference / 1_000_000i128
    } else {
        -((-difference) / 1_000_000i128)
    };
    assert(millis == millis_toward_zero(span_nanos(expires_at, now)));
    if millis < 1 {
        1
    } else {
        assert(millis <= 17_592_186_044_422_000i128) by (nonlinear_arith)
            requires
                millis == difference / 1_000_000i128,
                difference <= 17_592_186_044_417i128 * 1_000_000_000i128 + 5_000_000_000i128,
                difference >= 0,
        ;
        millis as i64
    }
}

/// Options used to configure the Redis driver.
#[derive(Debug, PartialEq, Eq)]
pub struct RedisDriverOptions {
    /// Redis connection string.
    pub connection_string: String,
    /// Prefix added to all Redis keys created by the driver.
    pub key_prefix: String,
}

impl RedisDriverOptions {
    /// Creates default options for a Redis connection string, with the default key prefix.
    pub fn new(connection_string: &str) -> (options: Self)
        ensures
            options.connection_string@ == connection_string@,
            options.key_prefix@ == DEFAULT_KEY_PREFIX@,
    {
        RedisDriverOptions { connection_string: connection_string.to_owned(), key_prefix: DEFAULT_KEY_PREFIX.to_owned() }
    }
}

impl Clone for RedisDriverOptions {
    fn clone(&self) -> (copy: Self)
        ensures
            copy.connection_string@ == self.connection_string@,
            copy.key_prefix@ == self.key_prefix@,
    {
        RedisDriverOptions { connection_string: self.connection_string.clone(), key_prefix: self.key_prefix.clone() }
    }
}

/// The capabilities of the Redis driver.
pub open spec fn spec_redis_capabilities() -> Capabilities {
    Capabilities {
        transactions: false,
        ttl: true,
        prefix_scan: true,
        atomic_increment: false,
        batch_write: true,
        raw_sql: false,
        document_query: false,
        json_query: false,
        migrations: false,
        connection_pooling: false,
        watch: false,
        backup: false,
    }
}

/// Capabilities for the implemented Redis driver.
pub fn redis_capabilities() -> (caps: Capabilities)
    ensures
        caps == spec_redis_capabilities(),
{
    Capabilities {
        transactions: false,
        ttl: true,
        prefix_scan: true,
        atomic_increment: false,
        batch_write: true,
        raw_sql: false,
        document_query: false,
        json_query: false,
        migrations: false,
        connection_pooling: false,
        watch: false,
        backup: false,
    }
}

/// The error reported for a failed Redis operation: a timeout where the
/// operation timed out, a driver error from `redis` otherwise.
pub fn redis_failure(timed_out: bool, message: &str) -> (error: YugenDbError)
    ensures
        code_of(error) == (if timed_out { ErrorCode::Timeout } else { ErrorCode::DriverError }),
        message_of(error) == message@,
        !timed_out ==> (error matches YugenDbError::DriverError { driver, .. } && driver@ == "redis"@),
{
    if timed_out {
        YugenDbError::timeout(message)
    } else {
        YugenDbError::driver_error("redis", message)
    }
}

/// Redis driver for external key-value storage.
#[derive(Debug)]
pub struct RedisDriver {
    options: RedisDriverOptions,
    client: ::redis::Client,
}

impl RedisDriver {
    /// The configured options.
    pub closed spec fn spec_options(&self) -> RedisDriverOptions {
        self.options
    }

    /// Creates a new Redis driver using default options.
    pub fn new(connection_string: &str) -> (driver: Result<Self, YugenDbError>)
        ensures
            driver is Ok <==> redis_url_accepted(connection_string@),
            driver matches Ok(d) ==> d.spec_options().connection_string@ == connection_string@
                && d.spec_options().key_prefix@ == DEFAULT_KEY_PREFIX@,
            driver matches Err(e) ==> code_of(e) == ErrorCode::ConnectionError,
    {
        Self::with_options(RedisDriverOptions::new(connection_string))
    }

    /// Creates a new Redis driver with explicit options. The connection string
    /// is parsed here; no connection is made.
    pub fn with_options(options: RedisDriverOptions) -> (driver: Result<Self, YugenDbError>)
        ensures
            driver is Ok <==> redis_url_accepted(options.connection_string@),
            driver matches Ok(d) ==> d.spec_options() == options,
            driver matches Err(e) ==> code_of(e) == ErrorCode::ConnectionError,
    {
        match open_client(options.connection_string.as_str()) {
            Ok(client) => Ok(RedisDriver { options, client }),
            Err(error) => {
                let message = redis_error_message(&error);
                Err(YugenDbError::connection_error(message.as_str()))
            },
        }
    }

    /// Returns the configured options.
    pub fn options(&self) -> (options: &RedisDriverOptions)
        ensures
            *options == self.spec_options(),
    {
        &self.options
    }

    /// The client that the driver holds.
    pub closed spec fn spec_client(&self) -> ::redis::Client {
        self.client
    }

    /// Returns the client, which connects on demand.
    pub fn client(&self) -> (client: &::redis::Client)
        ensures
            *client == self.spec_client(),
    {
        &self.client
    }

    /// Returns keyspace helper information.
    pub fn keyspace(&self) -> (keyspace: RedisKeyspace)
        ensures
            keyspace.key_prefix@ == self.spec_options().key_prefix@,
    {
        RedisKeyspace::new(self.options.key_prefix.as_str())
    }

    /// Stable driver name.
    pub fn name(&self) -> (name: &'static str)
        ensures
            name@ == "redis"@,
    {
        "redis"
    }

    /// Reports supported driver behaviour.
    pub fn capabilities(&self) -> (caps: Capabilities)
        ensures
            caps == spec_redis_capabilities(),
    {
        redis_capabilities()
    }

    /// Maps a Redis error to a structured error: a timeout where `redis`
    /// reports the operation as timed out, a driver error of `redis`
    /// otherwise, with the error's message.
    pub fn map_error(error: &::redis::RedisError) -> (mapped: YugenDbError)
        ensures
            code_of(mapped) == (if redis_timed_out(*error) { ErrorCode::Timeout } else { ErrorCode::DriverError }),
            !redis_timed_out(*error) ==> (mapped matches YugenDbError::DriverError { driver, .. } && driver@ == "redis"@),
    {
        let timed_out = redis_error_is_timeout(error);
        let message = redis_error_message(error);
        redis_failure(timed_out, message.as_str())
    }

    /// The Redis key of a record.
    pub fn key(&self, namespace: &Namespace, collection: &CollectionName, key: &Key) -> (redis_key: String)
        ensures
            redis_key@ == joined_key(self.spec_options().key_prefix@, namespace@, collection@, key@),
    {
        redis_key(self.options.key_prefix.as_str(), namespace.as_str(), collection.as_str(), key.as_str())
    }

    /// The `SCAN` pattern that matches the Redis keys of the records of a
    /// collection whose keys start with `prefix`.
    pub fn scan_pattern(&self, namespace: &Namespace, collection: &CollectionName, prefix: &str) -> (pattern: String)
        ensures
            pattern@ == joined_key(self.spec_options().key_prefix@, namespace@, collection@, prefix@).push('*'),
    {
        let mut pattern = self.prefix(namespace, collection, prefix);
        push_char(&mut pattern, '*');
        pattern
    }

    /// The Redis key prefix of the records of a collection whose keys start with `prefix`.
    pub fn prefix(&self, namespace: &Namespace, collection: &CollectionName, prefix: &str) -> (redis_prefix: String)
        ensures
            redis_prefix@ == joined_key(self.spec_options().key_prefix@, namespace@, collection@, prefix@),
    {
        redis_prefix(self.options.key_prefix.as_str(), namespace.as_str(), collection.as_str(), prefix)
    }
}

impl Clone for RedisDriver {
    fn clone(&self) -> (copy: Self)
        ensures
            copy.spec_options().connection_string@ == self.spec_options().connection_string@,
            copy.spec_options().key_prefix@ == self.spec_options().key_prefix@,
    {
        RedisDriver { options: self.options.clone(), client: clone_client(&self.client) }
    }
}

/// Convenience constructor for the Redis driver.
pub fn redis(connection_string: &str) -> (driver: Result<RedisDriver, YugenDbError>)
    ensures
        driver is Ok <==> redis_url_accepted(connection_string@),
        driver matches Ok(d) ==> d.spec_options().connection_string@ == connection_string@
            && d.spec_options().key_prefix@ == DEFAULT_KEY_PREFIX@,
        driver matches Err(e) ==> code_of(e) == ErrorCode::ConnectionError,
{
    RedisDriver::new(connection_string)
}

} // verus!
