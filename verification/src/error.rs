//! Structured error model.

use vstd::prelude::*;

verus! {

/// Stable cross-language error codes.
#[derive(Debug, Clone, Copy, PartialEq, Eq, Hash, Structural)]
pub enum ErrorCode {
    /// A requested record was not found when the operation required it.
    NotFound,
    /// A backend connection could not be opened or used.
    ConnectionError,
    /// A value could not be serialised.
    SerialisationError,
    /// Stored bytes could not be deserialised into the requested type.
    DeserialisationError,
    /// An operation exceeded its allowed time.
    Timeout,
    /// An operation conflicted with existing data or concurrent work.
    Conflict,
    /// A transaction was aborted.
    TransactionAborted,
    /// The selected driver does not support the requested feature.
    UnsupportedFeature,
    /// A storage constraint was violated.
    ConstraintViolation,
    /// A key was invalid.
    InvalidKey,
    /// A namespace was invalid.
    InvalidNamespace,
    /// A collection name was invalid.
    InvalidCollection,
    /// A value was invalid.
    InvalidValue,
    /// A driver reported a backend-specific failure.
    DriverError,
    /// A yugendb invariant failed.
    InternalError,
}

/// The stable public string of each error code.
pub open spec fn error_code_text(code: ErrorCode) -> Seq<char> {
    match code {
        ErrorCode::NotFound => "NOT_FOUND"@,
        ErrorCode::ConnectionError => "CONNECTION_ERROR"@,
        ErrorCode::SerialisationError => "SERIALISATION_ERROR"@,
        ErrorCode::DeserialisationError => "DESERIALISATION_ERROR"@,
        ErrorCode::Timeout => "TIMEOUT"@,
        ErrorCode::Conflict => "CONFLICT"@,
        ErrorCode::TransactionAborted => "TRANSACTION_ABORTED"@,
        ErrorCode::UnsupportedFeature => "UNSUPPORTED_FEATURE"@,
        ErrorCode::ConstraintViolation => "CONSTRAINT_VIOLATION"@,
        ErrorCode::InvalidKey => "INVALID_KEY"@,
        ErrorCode::InvalidNamespace => "INVALID_NAMESPACE"@,
        ErrorCode::InvalidCollection => "INVALID_COLLECTION"@,
        ErrorCode::InvalidValue => "INVALID_VALUE"@,
        ErrorCode::DriverError => "DRIVER_ERROR"@,
        ErrorCode::InternalError => "INTERNAL_ERROR"@,
    }
}

impl ErrorCode {
    /// Returns the stable string used in public APIs.
    pub fn as_str(self) -> (text: &'static str)
        ensures
            text@ == error_code_text(self),
    {
        match self {
            ErrorCode::NotFound => "NOT_FOUND",
            ErrorCode::ConnectionError => "CONNECTION_ERROR",
            ErrorCode::SerialisationError => "SERIALISATION_ERROR",
            ErrorCode::DeserialisationError => "DESERIALISATION_ERROR",
            ErrorCode::Timeout => "TIMEOUT",
            ErrorCode::Conflict => "CONFLICT",
            ErrorCode::TransactionAborted => "TRANSACTION_ABORTED",
            ErrorCode::UnsupportedFeature => "UNSUPPORTED_FEATURE",
            ErrorCode::ConstraintViolation => "CONSTRAINT_VIOLATION",
            ErrorCode::InvalidKey => "INVALID_KEY",
            ErrorCode::InvalidNamespace => "INVALID_NAMESPACE",
            ErrorCode::InvalidCollection => "INVALID_COLLECTION",
            ErrorCode::InvalidValue => "INVALID_VALUE",
            ErrorCode::DriverError => "DRIVER_ERROR",
            ErrorCode::InternalError => "INTERNAL_ERROR",
        }
    }
}


/// Main structured error type.
///
/// Each variant carries a human-readable message; `UnsupportedFeature` also
/// names the feature and `DriverError` names the driver.
#[derive(Debug, Clone, PartialEq, Eq)]
pub enum YugenDbError {
    /// A requested record was not found when the operation required it.
    NotFound { message: String },
    /// A backend connection could not be opened or used.
    ConnectionError { message: String },
    /// A value could not be serialised.
    SerialisationError { message: String },
    /// Stored bytes could not be deserialised into the requested type.
    DeserialisationError { message: String },
    /// An operation exceeded its allowed time.
    Timeout { message: String },
    /// An operation conflicted with existing data or concurrent work.
    Conflict { message: String },
    /// A transaction was aborted.
    TransactionAborted { message: String },
    /// The selected driver does not support the requested feature.
    UnsupportedFeature { feature: String, message: String },
    /// A storage constraint was violated.
    ConstraintViolation { message: String },
    /// A key was invalid.
    InvalidKey { message: String },
    /// A namespace was invalid.
    InvalidNamespace { message: String },
    /// A collection name was invalid.
    InvalidCollection { message: String },
    /// A value was invalid.
    InvalidValue { message: String },
    /// A driver reported a backend-specific failure.
    DriverError { driver: String, message: String },
    /// A yugendb invariant failed.
    InternalError { message: String },
}

/// The error code that each error variant carries.
pub open spec fn code_of(error: YugenDbError) -> ErrorCode {
    match error {
        YugenDbError::NotFound { .. } => ErrorCode::NotFound,
        YugenDbError::ConnectionError { .. } => ErrorCode::ConnectionError,
        YugenDbError::SerialisationError { .. } => ErrorCode::SerialisationError,
        YugenDbError::DeserialisationError { .. } => ErrorCode::DeserialisationError,
        YugenDbError::Timeout { .. } => ErrorCode::Timeout,
        YugenDbError::Conflict { .. } => ErrorCode::Conflict,
        YugenDbError::TransactionAborted { .. } => ErrorCode::TransactionAborted,
        YugenDbError::UnsupportedFeature { .. } => ErrorCode::UnsupportedFeature,
        YugenDbError::ConstraintViolation { .. } => ErrorCode::ConstraintViolation,
        YugenDbError::InvalidKey { .. } => ErrorCode::InvalidKey,
        YugenDbError::InvalidNamespace { .. } => ErrorCode::InvalidNamespace,
        YugenDbError::InvalidCollection { .. } => ErrorCode::InvalidCollection,
        YugenDbError::InvalidValue { .. } => ErrorCode::InvalidValue,
        YugenDbError::DriverError { .. } => ErrorCode::DriverError,
        YugenDbError::InternalError { .. } => ErrorCode::InternalError,
    }
}

/// The text of an error: what it is, then its message.
pub open spec fn error_text(error: YugenDbError) -> Seq<char> {
    match error {
        YugenDbError::NotFound { message } => "record was not found: "@ + message@,
        YugenDbError::ConnectionError { message } => "connection error: "@ + message@,
        YugenDbError::SerialisationError { message } => "serialisation error: "@ + message@,
        YugenDbError::DeserialisationError { message } => "deserialisation error: "@ + message@,
        YugenDbError::Timeout { message } => "operation timed out: "@ + message@,
        YugenDbError::Conflict { message } => "conflict: "@ + message@,
        YugenDbError::TransactionAborted { message } => "transaction aborted: "@ + message@,
        YugenDbError::ConstraintViolation { message } => "constraint violation: "@ + message@,
        YugenDbError::InvalidKey { message } => "invalid key: "@ + message@,
        YugenDbError::InvalidNamespace { message } => "invalid namespace: "@ + message@,
        YugenDbError::InvalidCollection { message } => "invalid collection: "@ + message@,
        YugenDbError::InvalidValue { message } => "invalid value: "@ + message@,
        YugenDbError::InternalError { message } => "internal error: "@ + message@,
        YugenDbError::UnsupportedFeature { feature, message } => "unsupported feature `"@ + feature@ + "`: "@
            + message@,
        YugenDbError::DriverError { driver, message } => "driver error from `"@ + driver@ + "`: "@ + message@,
    }
}

/// Joins two pieces of text.
fn joined(first: &str, second: &str) -> (text: String)
    ensures
        text@ == first@ + second@,
{
    let mut text = first.to_owned();
    text.append(second);
    text
}

/// Joins four pieces of text.
fn joined_four(first: &str, second: &str, third: &str, fourth: &str) -> (text: String)
    ensures
        text@ == first@ + second@ + third@ + fourth@,
{
    let mut text = joined(first, second);
    text.append(third);
    text.append(fourth);
    text
}

impl YugenDbError {
    /// The text of the error: what it is, then its message, as in
    /// `driver error from `sqlite`: disk I/O error`.
    pub fn text(&self) -> (text: String)
        ensures
            text@ == error_text(*self),
    {
        match self {
            YugenDbError::NotFound { message } => joined("record was not found: ", message.as_str()),
            YugenDbError::ConnectionError { message } => joined("connection error: ", message.as_str()),
            YugenDbError::SerialisationError { message } => joined("serialisation error: ", message.as_str()),
            YugenDbError::DeserialisationError { message } => joined("deserialisation error: ", message.as_str()),
            YugenDbError::Timeout { message } => joined("operation timed out: ", message.as_str()),
            YugenDbError::Conflict { message } => joined("conflict: ", message.as_str()),
            YugenDbError::TransactionAborted { message } => joined("transaction aborted: ", message.as_str()),
            YugenDbError::ConstraintViolation { message } => joined("constraint violation: ", message.as_str()),
            YugenDbError::InvalidKey { message } => joined("invalid key: ", message.as_str()),
            YugenDbError::InvalidNamespace { message } => joined("invalid namespace: ", message.as_str()),
            YugenDbError::InvalidCollection { message } => joined("invalid collection: ", message.as_str()),
            YugenDbError::InvalidValue { message } => joined("invalid value: ", message.as_str()),
            YugenDbError::InternalError { message } => joined("internal error: ", message.as_str()),
            YugenDbError::UnsupportedFeature { feature, message } => joined_four("unsupported feature `", feature.as_str(), "`: ", message.as_str()),
            YugenDbError::DriverError { driver, message } => joined_four("driver error from `", driver.as_str(), "`: ", message.as_str()),
        }
    }

    /// Returns the stable cross-language error code.
    pub fn code(&self) -> (code: ErrorCode)
        ensures
            code == code_of(*self),
    {
        match self {
            YugenDbError::NotFound { .. } => ErrorCode::NotFound,
            YugenDbError::ConnectionError { .. } => ErrorCode::ConnectionError,
            YugenDbError::SerialisationError { .. } => ErrorCode::SerialisationError,
            YugenDbError::DeserialisationError { .. } => ErrorCode::DeserialisationError,
            YugenDbError::Timeout { .. } => ErrorCode::Timeout,
            YugenDbError::Conflict { .. } => ErrorCode::Conflict,
            YugenDbError::TransactionAborted { .. } => ErrorCode::TransactionAborted,
            YugenDbError::UnsupportedFeature { .. } => ErrorCode::UnsupportedFeature,
            YugenDbError::ConstraintViolation { .. } => ErrorCode::ConstraintViolation,
            YugenDbError::InvalidKey { .. } => ErrorCode::InvalidKey,
            YugenDbError::InvalidNamespace { .. } => ErrorCode::InvalidNamespace,
            YugenDbError::InvalidCollection { .. } => ErrorCode::InvalidCollection,
            YugenDbError::InvalidValue { .. } => ErrorCode::InvalidValue,
            YugenDbError::DriverError { .. } => ErrorCode::DriverError,
            YugenDbError::InternalError { .. } => ErrorCode::InternalError,
        }
    }

    /// Creates a not found error.
    pub fn not_found(message: &str) -> (error: Self)
        ensures
            error matches YugenDbError::NotFound { message: m } && m@ == message@,
    {
        YugenDbError::NotFound { message: message.to_owned() }
    }

    /// Creates a connection error.
    pub fn connection_error(message: &str) -> (error: Self)
        ensures
            error matches YugenDbError::ConnectionError { message: m } && m@ == message@,
    {
        YugenDbError::ConnectionError { message: message.to_owned() }
    }

    /// Creates a serialisation error.
    pub fn serialisation_error(message: &str) -> (error: Self)
        ensures
            error matches YugenDbError::SerialisationError { message: m } && m@ == message@,
    {
        YugenDbError::SerialisationError { message: message.to_owned() }
    }

    /// Creates a deserialisation error.
    pub fn deserialisation_error(message: &str) -> (error: Self)
        ensures
            error matches YugenDbError::DeserialisationError { message: m } && m@ == message@,
    {
        YugenDbError::DeserialisationError { message: message.to_owned() }
    }

    /// Creates a timeout error.
    pub fn timeout(message: &str) -> (error: Self)
        ensures
            error matches YugenDbError::Timeout { message: m } && m@ == message@,
    {
        YugenDbError::Timeout { message: message.to_owned() }
    }

    /// Creates a conflict error.
    pub fn conflict(message: &str) -> (error: Self)
        ensures
            error matches YugenDbError::Conflict { message: m } && m@ == message@,
    {
        YugenDbError::Conflict { message: message.to_owned() }
    }

    /// Creates a transaction aborted error.
    pub fn transaction_aborted(message: &str) -> (error: Self)
        ensures
            error matches YugenDbError::TransactionAborted { message: m } && m@ == message@,
    {
        YugenDbError::TransactionAborted { message: message.to_owned() }
    }

    /// Creates an unsupported feature error.
    pub fn unsupported_feature(feature: &str, message: &str) -> (error: Self)
        ensures
            error matches YugenDbError::UnsupportedFeature { feature: f, message: m } && f@ == feature@ && m@ == message@,
    {
        YugenDbError::UnsupportedFeature { feature: feature.to_owned(), message: message.to_owned() }
    }

    /// Creates a constraint violation error.
    pub fn constraint_violation(message: &str) -> (error: Self)
        ensures
            error matches YugenDbError::ConstraintViolation { message: m } && m@ == message@,
    {
        YugenDbError::ConstraintViolation { message: message.to_owned() }
    }

    /// Creates an invalid key error.
    pub fn invalid_key(message: &str) -> (error: Self)
        ensures
            error matches YugenDbError::InvalidKey { message: m } && m@ == message@,
    {
        YugenDbError::InvalidKey { message: message.to_owned() }
    }

    /// Creates an invalid namespace error.
    pub fn invalid_namespace(message: &str) -> (error: Self)
        ensures
            error matches YugenDbError::InvalidNamespace { message: m } && m@ == message@,
    {
        YugenDbError::InvalidNamespace { message: message.to_owned() }
    }

    /// Creates an invalid collection error.
    pub fn invalid_collection(message: &str) -> (error: Self)
        ensures
            error matches YugenDbError::InvalidCollection { message: m } && m@ == message@,
    {
        YugenDbError::InvalidCollection { message: message.to_owned() }
    }

    /// Creates an invalid value error.
    pub fn invalid_value(message: &str) -> (error: Self)
        ensures
            error matches YugenDbError::InvalidValue { message: m } && m@ == message@,
    {
        YugenDbError::InvalidValue { message: message.to_owned() }
    }

    /// Creates a driver error.
    pub fn driver_error(driver: &str, message: &str) -> (error: Self)
        ensures
            error matches YugenDbError::DriverError { driver: d, message: m } && d@ == driver@ && m@ == message@,
    {
        YugenDbError::DriverError { driver: driver.to_owned(), message: message.to_owned() }
    }

    /// Creates an invariant error.
    pub fn internal_error(message: &str) -> (error: Self)
        ensures
            error matches YugenDbError::InternalError { message: m } && m@ == message@,
    {
        YugenDbError::InternalError { message: message.to_owned() }
    }

}

} // verus!
