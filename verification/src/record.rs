//! How the SQL drivers lay a stored value out in the columns of their
//! records: the bytes and the codec as they are, the times as RFC 3339 text.

use vstd::prelude::*;

use crate::error::{code_of, ErrorCode, YugenDbError};
use crate::time::{four_digit_year, optional_timestamp_to_text, parse_optional_timestamp, parse_timestamp, rfc3339_moment, rfc3339_text, timestamp_to_text};
use crate::value::{StoredValue, StoredValueView, ValueBytes, ValueMetadata};

verus! {

/// The optional text as characters.
pub open spec fn optional_text(text: Option<String>) -> Option<Seq<char>> {
    match text {
        Some(t) => Some(t@),
        None => None,
    }
}

/// The stored value that a record holds, where its times parse as RFC 3339.
pub open spec fn record_value(
    bytes: Seq<u8>,
    codec: Seq<char>,
    created_at: Seq<char>,
    updated_at: Seq<char>,
    expires_at: Option<Seq<char>>,
) -> Option<StoredValueView> {
    match (rfc3339_moment(created_at), rfc3339_moment(updated_at)) {
        (Some(created), Some(updated)) => match expires_at {
            None => Some(StoredValueView { bytes, codec, created_at: created, updated_at: updated, expires_at: None }),
            Some(e) => match rfc3339_moment(e) {
                Some(expires) => Some(
                    StoredValueView { bytes, codec, created_at: created, updated_at: updated, expires_at: Some(expires) },
                ),
                None => None,
            },
        },
        _ => None,
    }
}

/// The times of a stored value are all of four-digit years, so that their
/// RFC 3339 texts read back as the same times.
pub open spec fn times_round_trip(value: StoredValueView) -> bool {
    &&& four_digit_year(value.created_at)
    &&& four_digit_year(value.updated_at)
    &&& (value.expires_at matches Some(t) ==> four_digit_year(t))
}

/// The RFC 3339 texts of the times of a stored value, where all of them can
/// be written.
pub open spec fn time_texts(value: StoredValueView) -> Option<(Seq<char>, Seq<char>, Option<Seq<char>>)> {
    match (
        rfc3339_text(value.created_at.secs, value.created_at.nanos),
        rfc3339_text(value.updated_at.secs, value.updated_at.nanos),
    ) {
        (Some(created), Some(updated)) => match value.expires_at {
            None => Some((created, updated, None)),
            Some(t) => match rfc3339_text(t.secs, t.nanos) {
                Some(expires) => Some((created, updated, Some(expires))),
                None => None,
            },
        },
        _ => None,
    }
}

/// The columns of a stored record as a SQL driver reads them back.
#[derive(Debug)]
pub struct RecordColumns {
    /// The serialised value.
    pub value: Vec<u8>,
    /// The codec name.
    pub codec: String,
    /// The creation time, as RFC 3339 text.
    pub created_at: String,
    /// The update time, as RFC 3339 text.
    pub updated_at: String,
    /// The expiry time, as RFC 3339 text, if any.
    pub expires_at: Option<String>,
}

/// The time columns of a stored record, as a SQL driver writes them.
#[derive(Debug)]
pub struct RecordTimes {
    /// The creation time, as RFC 3339 text.
    pub created_at: String,
    /// The update time, as RFC 3339 text.
    pub updated_at: String,
    /// The expiry time, as RFC 3339 text, if any.
    pub expires_at: Option<String>,
}

/// Reads the stored value out of the columns of a record. A time that does
/// not parse is reported as an error of the driver named `driver`.
pub fn value_from_columns(driver: &str, columns: RecordColumns) -> (value: Result<StoredValue, YugenDbError>)
    ensures
        match record_value(
            columns.value@,
            columns.codec@,
            columns.created_at@,
            columns.updated_at@,
            optional_text(columns.expires_at),
        ) {
            Some(v) => value matches Ok(stored) && stored@ == v,
            None => value matches Err(e) && (e matches YugenDbError::DriverError { driver: d, .. } && d@ == driver@),
        },
{
    let created_at = match parse_timestamp(driver, columns.created_at.as_str()) {
        Ok(t) => t,
        Err(e) => {
            return Err(e);
        },
    };
    let updated_at = match parse_timestamp(driver, columns.updated_at.as_str()) {
        Ok(t) => t,
        Err(e) => {
            return Err(e);
        },
    };
    let expires_text: Option<&str> = match &columns.expires_at {
        Some(t) => Some(t.as_str()),
        None => None,
    };
    let expires_at = match parse_optional_timestamp(driver, expires_text) {
        Ok(t) => t,
        Err(e) => {
            return Err(e);
        },
    };
    Ok(StoredValue::new(
        ValueBytes::new(columns.value),
        ValueMetadata { codec: columns.codec, created_at, updated_at, expires_at },
    ))
}

/// Writes the times of a stored value as the RFC 3339 texts of its record.
/// A time outside the range of dates that can be written is reported as an
/// invalid value. A value whose times are of four-digit years is written so
/// that its columns read back as the same value.
pub fn record_times(value: &StoredValue) -> (times: Result<RecordTimes, YugenDbError>)
    ensures
        match time_texts(value@) {
            Some(texts) => times matches Ok(t) && (t.created_at@, t.updated_at@, optional_text(t.expires_at)) == texts,
            None => times matches Err(e) && code_of(e) == ErrorCode::InvalidValue,
        },
        times_round_trip(value@) ==> (times matches Ok(t) && record_value(
            value@.bytes,
            value@.codec,
            t.created_at@,
            t.updated_at@,
            optional_text(t.expires_at),
        ) == Some(value@)),
{
    let created_at = match timestamp_to_text(value.metadata.created_at) {
        Ok(t) => t,
        Err(e) => {
            return Err(e);
        },
    };
    let updated_at = match timestamp_to_text(value.metadata.updated_at) {
        Ok(t) => t,
        Err(e) => {
            return Err(e);
        },
    };
    let expires_at = match optional_timestamp_to_text(value.metadata.expires_at) {
        Ok(t) => t,
        Err(e) => {
            return Err(e);
        },
    };
    Ok(RecordTimes { created_at, updated_at, expires_at })
}

} // verus!
