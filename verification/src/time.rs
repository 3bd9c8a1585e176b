//! Points in time and time spans.
//!
//! A [`Timestamp`] holds what the library reads of a UTC date and time: whole
//! seconds since the Unix epoch and the nanoseconds past that second. A
//! [`Duration`] is a non-negative span, as used for time-to-live.

use vstd::prelude::*;

verus! {

/// Nanoseconds in one second.
pub const NANOS_PER_SEC: u32 = 1_000_000_000;

/// The largest number of whole seconds that a UTC time delta can hold.
pub const MAX_DELTA_SECS: u64 = 9_223_372_036_854_775;

/// The nanoseconds that a UTC time delta can hold on top of `MAX_DELTA_SECS`.
pub const MAX_DELTA_SUBSEC_NANOS: u32 = 807_000_000;

/// A UTC point in time: seconds since 1970-01-01T00:00:00Z and the
/// nanoseconds past that second.
#[derive(Debug, Clone, Copy, PartialEq, Eq, Hash, Structural)]
pub struct Timestamp {
    /// Whole seconds since the Unix epoch.
    pub secs: i64,
    /// Nanoseconds past `secs`.
    pub nanos: u32,
}

/// The point in time as nanoseconds since the Unix epoch.
pub open spec fn instant(t: Timestamp) -> int {
    t.secs * (NANOS_PER_SEC as int) + t.nanos
}

/// Chronological order: by seconds, then by the nanoseconds past them.
pub open spec fn timestamp_le(a: Timestamp, b: Timestamp) -> bool {
    a.secs < b.secs || (a.secs == b.secs && a.nanos <= b.nanos)
}

impl Timestamp {
    /// Creates a timestamp from seconds since the Unix epoch and nanoseconds.
    pub fn new(secs: i64, nanos: u32) -> (t: Self)
        ensures
            t.secs == secs,
            t.nanos == nanos,
    {
        Timestamp { secs, nanos }
    }

    /// Returns whether `self` is at or before `other`.
    pub fn is_at_or_before(&self, other: &Timestamp) -> (result: bool)
        ensures
            result == timestamp_le(*self, *other),
    {
        self.secs < other.secs || (self.secs == other.secs && self.nanos <= other.nanos)
    }
}

/// A non-negative span of time with nanosecond precision.
#[derive(Debug, Clone, Copy, PartialEq, Eq, Hash)]
pub struct Duration {
    secs: u64,
    nanos: u32,
}

impl Duration {
    #[verifier::type_invariant]
    spec fn well_formed(self) -> bool {
        self.nanos < NANOS_PER_SEC
    }

    /// Whole seconds of the span.
    pub closed spec fn spec_secs(self) -> u64 {
        self.secs
    }

    /// Nanoseconds of the span past its whole seconds.
    pub closed spec fn spec_subsec_nanos(self) -> u32 {
        self.nanos
    }

    /// Creates a span of `secs` seconds and `nanos` nanoseconds; whole
    /// seconds in `nanos` carry over into the seconds.
    pub fn new(secs: u64, nanos: u32) -> (d: Self)
        requires
            secs + nanos / NANOS_PER_SEC <= u64::MAX,
        ensures
            d.spec_secs() == secs + nanos / NANOS_PER_SEC,
            d.spec_subsec_nanos() == nanos % NANOS_PER_SEC,
    {
        Duration { secs: secs + (nanos / NANOS_PER_SEC) as u64, nanos: nanos % NANOS_PER_SEC }
    }

    /// Creates a span of whole seconds.
    pub fn from_secs(secs: u64) -> (d: Self)
        ensures
            d.spec_secs() == secs,
            d.spec_subsec_nanos() == 0,
    {
        Duration { secs, nanos: 0 }
    }

    /// Creates a span of milliseconds.
    pub fn from_millis(millis: u64) -> (d: Self)
        ensures
            d.spec_secs() == millis / 1000,
            d.spec_subsec_nanos() == (millis % 1000) * 1_000_000,
    {
        let nanos = ((millis % 1000) as u32) * 1_000_000;
        Duration { secs: millis / 1000, nanos }
    }

    /// Returns the whole seconds of the span.
    pub fn as_secs(&self) -> (secs: u64)
        ensures
            secs == self.spec_secs(),
    {
        self.secs
    }

    /// Returns the nanoseconds of the span past its whole seconds.
    pub fn subsec_nanos(&self) -> (nanos: u32)
        ensures
            nanos == self.spec_subsec_nanos(),
            nanos < NANOS_PER_SEC,
    {
        proof {
            use_type_invariant(self);
        }
        self.nanos
    }
}

/// The span as nanoseconds.
pub open spec fn duration_nanos(d: Duration) -> int {
    d.spec_secs() * (NANOS_PER_SEC as int) + d.spec_subsec_nanos()
}

/// Whether a span fits in a UTC time delta (at most `i64::MAX` milliseconds).
pub open spec fn fits_time_delta(d: Duration) -> bool {
    d.spec_secs() < MAX_DELTA_SECS || (d.spec_secs() == MAX_DELTA_SECS && d.spec_subsec_nanos()
        <= MAX_DELTA_SUBSEC_NANOS)
}

/// Returns whether a span fits in a UTC time delta.
pub fn duration_fits_time_delta(d: &Duration) -> (result: bool)
    ensures
        result == fits_time_delta(*d),
{
    let secs = d.as_secs();
    secs < MAX_DELTA_SECS || (secs == MAX_DELTA_SECS && d.subsec_nanos() <= MAX_DELTA_SUBSEC_NANOS)
}

/// The UTC date and time `delta` after the moment `(secs, nanos)`, or `None`
/// where the moment or the sum lies outside the supported range of dates.
pub uninterp spec fn utc_checked_add(secs: i64, nanos: u32, delta_secs: u64, delta_nanos: u32) -> Option<Timestamp>;

/// Reads the system clock.
///
/// Calls `std::time::SystemTime::now` and converts the reading with
/// `chrono`'s `From<SystemTime> for DateTime<Utc>`, which takes a clock
/// before 1970 as a negative time rather than failing. Claims only that the
/// nanoseconds lie below one second: the conversion takes them from a
/// `std::time::Duration`, or from one second less such nanoseconds before
/// 1970. The time itself is not stated. The conversion fails only for a
/// clock beyond `chrono`'s range of dates, some 262,000 years from 1970.
#[verifier::external_body]
pub fn utc_now() -> (now: Timestamp)
    ensures
        now.nanos < NANOS_PER_SEC,
{
    let now = chrono::DateTime::<chrono::Utc>::from(std::time::SystemTime::now());
    Timestamp { secs: now.timestamp(), nanos: now.timestamp_subsec_nanos() }
}

/// The moment `delta` after `at`, where both the moment and the result are
/// representable UTC dates.
///
/// Calls `chrono::DateTime::checked_add_signed` on the `DateTime` that
/// `DateTime::from_timestamp` builds from `at` and the `TimeDelta` that
/// `TimeDelta::from_std` builds from `delta`. Claims that the result is a
/// function of its arguments (named `utc_checked_add`) and that, for a moment
/// that is not a leap second, a result lies exactly `delta` later. When the
/// result is `None` is not stated: it depends on chrono's range of dates.
#[verifier::external_body]
fn checked_add(at: Timestamp, delta: Duration) -> (sum: Option<Timestamp>)
    requires
        fits_time_delta(delta),
    ensures
        sum == utc_checked_add(at.secs, at.nanos, delta.spec_secs(), delta.spec_subsec_nanos()),
        at.nanos < NANOS_PER_SEC ==> (sum matches Some(t) ==> instant(t) == instant(at)
            + duration_nanos(delta) && t.nanos < NANOS_PER_SEC),
{
    let start = chrono::DateTime::from_timestamp(at.secs, at.nanos)?;
    let delta = chrono::TimeDelta::from_std(std::time::Duration::new(delta.secs, delta.nanos)).ok()?;
    let end = start.checked_add_signed(delta)?;
    Some(Timestamp { secs: end.timestamp(), nanos: end.timestamp_subsec_nanos() })
}

/// Returns the moment `delta` after `at`, or `None` where the span does not
/// fit in a time delta or the result lies outside the supported range of dates.
pub fn timestamp_after(at: Timestamp, delta: Duration) -> (sum: Option<Timestamp>)
    ensures
        !fits_time_delta(delta) ==> sum is None,
        fits_time_delta(delta) ==> sum == utc_checked_add(at.secs, at.nanos, delta.spec_secs(), delta.spec_subsec_nanos()),
        at.nanos < NANOS_PER_SEC ==> (sum matches Some(t) ==> instant(t) == instant(at)
            + duration_nanos(delta) && t.nanos < NANOS_PER_SEC),
{
    if duration_fits_time_delta(&delta) {
        checked_add(at, delta)
    } else {
        None
    }
}

/// The UTC moment that `chrono` reads from an RFC 3339 text, or `None`
/// where the text does not parse.
pub uninterp spec fn rfc3339_moment(text: Seq<char>) -> Option<Timestamp>;

/// The RFC 3339 text that `chrono` writes for the UTC moment `(secs, nanos)`,
/// or `None` where the moment lies outside the supported range of dates.
pub uninterp spec fn rfc3339_text(secs: i64, nanos: u32) -> Option<Seq<char>>;

/// The message of the error that `chrono` reports for a text that does not
/// parse as RFC 3339.
pub uninterp spec fn rfc3339_error_text(text: Seq<char>) -> Seq<char>;

/// Parses an RFC 3339 date and time and converts it to UTC, or gives the
/// message of the parse error.
///
/// Calls `chrono::DateTime::parse_from_rfc3339` and `with_timezone(&Utc)`,
/// and for a failure `ToString::to_string` on the `chrono::ParseError`,
/// which writes one fixed text per kind of failure. Claims that the result
/// and the message are functions of the text (named `rfc3339_moment` and
/// `rfc3339_error_text`).
#[verifier::external_body]
fn parse_rfc3339(text: &str) -> (parsed: Result<Timestamp, String>)
    ensures
        parsed is Ok <==> rfc3339_moment(text@) is Some,
        parsed matches Ok(t) ==> rfc3339_moment(text@) == Some(t),
        parsed matches Err(message) ==> message@ == rfc3339_error_text(text@),
{
    match chrono::DateTime::parse_from_rfc3339(text) {
        Ok(moment) => {
            let moment = moment.with_timezone(&chrono::Utc);
            Ok(Timestamp { secs: moment.timestamp(), nanos: moment.timestamp_subsec_nanos() })
        },
        Err(error) => Err(error.to_string()),
    }
}

/// The first second of year 0: 0000-01-01T00:00:00Z.
pub const FIRST_FOUR_DIGIT_YEAR_SECS: i64 = -62167219200i64;

/// The last second of year 9999: 9999-12-31T23:59:59Z.
pub const LAST_FOUR_DIGIT_YEAR_SECS: i64 = 253402300799i64;

/// A moment in the years 0 to 9999: the moments whose RFC 3339 text
/// `chrono` writes with a four-digit year, as the standard asks, and reads
/// back. Its nanoseconds lie below one second, or below two where the moment
/// is a leap second, in the last second of a minute, which `chrono` writes
/// as second 60.
pub open spec fn four_digit_year(at: Timestamp) -> bool {
    &&& FIRST_FOUR_DIGIT_YEAR_SECS <= at.secs <= LAST_FOUR_DIGIT_YEAR_SECS
    &&& (at.nanos < NANOS_PER_SEC || (at.nanos < 2 * NANOS_PER_SEC && at.secs % 60 == 59))
}

/// Writes a UTC moment as an RFC 3339 text.
///
/// Calls `chrono::DateTime::from_timestamp` and `to_rfc3339`; claims that the
/// result is a function of the moment (named `rfc3339_text`), and that a
/// moment of a four-digit year is written and reads back as itself:
/// `from_timestamp` accepts every such moment, leap seconds included;
/// `to_rfc3339` writes the year with four digits, a leap second as second
/// 60, all non-zero nanoseconds and the offset `+00:00`; and
/// `parse_from_rfc3339` reads exactly that form, second 60 as a leap second.
#[verifier::external_body]
fn format_timestamp(at: Timestamp) -> (text: Option<String>)
    ensures
        match text {
            Some(t) => rfc3339_text(at.secs, at.nanos) == Some(t@),
            None => rfc3339_text(at.secs, at.nanos) is None,
        },
        four_digit_year(at) ==> text is Some,
        text matches Some(t) ==> (four_digit_year(at) ==> rfc3339_moment(t@) == Some(at)),
{
    chrono::DateTime::from_timestamp(at.secs, at.nanos).map(|moment| moment.to_rfc3339())
}

/// Parses a stored RFC 3339 timestamp; a text that does not parse is
/// reported as an error of the driver named `driver`.
pub fn parse_timestamp(driver: &str, text: &str) -> (parsed: Result<Timestamp, crate::error::YugenDbError>)
    ensures
        match rfc3339_moment(text@) {
            Some(t) => parsed == Ok::<Timestamp, crate::error::YugenDbError>(t),
            None => parsed matches Err(e) && (e matches crate::error::YugenDbError::DriverError { driver: d, .. }
                && d@ == driver@) && crate::key::message_of(e) == rfc3339_error_text(text@),
        },
{
    match parse_rfc3339(text) {
        Ok(t) => Ok(t),
        Err(message) => Err(crate::error::YugenDbError::driver_error(driver, message.as_str())),
    }
}

/// Parses an optional stored RFC 3339 timestamp.
pub fn parse_optional_timestamp(driver: &str, text: Option<&str>) -> (parsed: Result<Option<Timestamp>, crate::error::YugenDbError>)
    ensures
        match text {
            None => parsed == Ok::<Option<Timestamp>, crate::error::YugenDbError>(None),
            Some(s) => match rfc3339_moment(s@) {
                Some(t) => parsed == Ok::<Option<Timestamp>, crate::error::YugenDbError>(Some(t)),
                None => parsed matches Err(e) && (e matches crate::error::YugenDbError::DriverError { driver: d, .. }
                    && d@ == driver@) && crate::key::message_of(e) == rfc3339_error_text(s@),
            },
        },
{
    match text {
        None => Ok(None),
        Some(s) => match parse_timestamp(driver, s) {
            Ok(t) => Ok(Some(t)),
            Err(e) => Err(e),
        },
    }
}

/// Writes a stored timestamp as RFC 3339 text; a moment outside the
/// supported range of dates is reported as an invalid value.
pub fn timestamp_to_text(at: Timestamp) -> (text: Result<String, crate::error::YugenDbError>)
    ensures
        match rfc3339_text(at.secs, at.nanos) {
            Some(t) => text matches Ok(s) && s@ == t,
            None => text matches Err(e) && crate::error::code_of(e) == crate::error::ErrorCode::InvalidValue,
        },
        four_digit_year(at) ==> (text matches Ok(s) && rfc3339_moment(s@) == Some(at)),
{
    match format_timestamp(at) {
        Some(t) => Ok(t),
        None => Err(crate::error::YugenDbError::invalid_value("timestamp is outside the supported range of dates")),
    }
}

/// Writes an optional stored timestamp as RFC 3339 text.
pub fn optional_timestamp_to_text(at: Option<Timestamp>) -> (text: Result<Option<String>, crate::error::YugenDbError>)
    ensures
        match at {
            None => text matches Ok(None),
            Some(t) => match rfc3339_text(t.secs, t.nanos) {
                Some(expected) => text matches Ok(Some(s)) && s@ == expected,
                None => text matches Err(e) && crate::error::code_of(e) == crate::error::ErrorCode::InvalidValue,
            },
        },
        at matches Some(t) ==> (four_digit_year(t) ==> (text matches Ok(Some(s)) && rfc3339_moment(s@) == Some(t))),
{
    match at {
        None => Ok(None),
        Some(t) => match timestamp_to_text(t) {
            Ok(s) => Ok(Some(s)),
            Err(e) => Err(e),
        },
    }
}

} // verus!
