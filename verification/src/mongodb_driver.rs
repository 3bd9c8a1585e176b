//! MongoDB document mapping and driver configuration.

use vstd::prelude::*;

use crate::order::push_char;

use crate::capabilities::Capabilities;
use crate::error::{code_of, ErrorCode, YugenDbError};
use crate::key::{message_of, CollectionName, Key, Namespace};
use crate::locks::empty_slot;
use crate::record::{record_times, record_value, time_texts, times_round_trip};
use crate::time::{parse_timestamp, rfc3339_moment};
use crate::value::{StoredValue, StoredValueView, ValueBytes, ValueMetadata};

verus! {

/// Default MongoDB collection used by the driver.
pub const STORAGE_COLLECTION_NAME: &'static str = "yugendb_store";

/// Current document mapping version.
pub const DOCUMENT_SCHEMA_VERSION: u32 = 1;

/// Field used for the namespace.
pub const NAMESPACE_FIELD: &'static str = "namespace";

/// Field used for the collection.
pub const COLLECTION_FIELD: &'static str = "collection";

/// Field used for the key.
pub const KEY_FIELD: &'static str = "key";

/// Field used for serialised bytes.
pub const VALUE_FIELD: &'static str = "value";

/// Field used for codec name.
pub const CODEC_FIELD: &'static str = "codec";

/// Field used for creation time.
pub const CREATED_AT_FIELD: &'static str = "createdAt";

/// Field used for update time.
pub const UPDATED_AT_FIELD: &'static str = "updatedAt";

/// Field used for optional expiry time.
pub const EXPIRES_AT_FIELD: &'static str = "expiresAt";

/// Ordered field list exposed by the schema helper.
pub const STORED_DOCUMENT_FIELDS: [&'static str; 8] = [
    NAMESPACE_FIELD,
    COLLECTION_FIELD,
    KEY_FIELD,
    VALUE_FIELD,
    CODEC_FIELD,
    CREATED_AT_FIELD,
    UPDATED_AT_FIELD,
    EXPIRES_AT_FIELD,
];

/// Returns the compound identity index fields.
pub fn identity_index_fields() -> (fields: [&'static str; 3])
    ensures
        fields@ == seq![NAMESPACE_FIELD, COLLECTION_FIELD, KEY_FIELD],
{
    let fields = [NAMESPACE_FIELD, COLLECTION_FIELD, KEY_FIELD];
    assert(fields@ =~= seq![NAMESPACE_FIELD, COLLECTION_FIELD, KEY_FIELD]);
    fields
}

/// Options used to configure the MongoDB driver.
#[derive(Debug, PartialEq, Eq)]
pub struct MongoDbDriverOptions {
    /// MongoDB connection string.
    pub connection_string: String,
    /// Database name to store documents in.
    pub database: String,
    /// Backing MongoDB collection name.
    pub storage_collection: String,
    /// Whether indexes should be created during initialisation.
    pub create_indexes_on_initialise: bool,
}

impl MongoDbDriverOptions {
    /// Creates default MongoDB options for a connection string: database
    /// `yugendb`, the default storage collection, and indexes created on
    /// initialisation.
    pub fn new(connection_string: &str) -> (options: Self)
        ensures
            options.connection_string@ == connection_string@,
            options.database@ == "yugendb"@,
            options.storage_collection@ == STORAGE_COLLECTION_NAME@,
            options.create_indexes_on_initialise,
    {
        MongoDbDriverOptions {
            connection_string: connection_string.to_owned(),
            database: "yugendb".to_owned(),
            storage_collection: STORAGE_COLLECTION_NAME.to_owned(),
            create_indexes_on_initialise: true,
        }
    }
}

impl Clone for MongoDbDriverOptions {
    fn clone(&self) -> (copy: Self)
        ensures
            copy.connection_string@ == self.connection_string@,
            copy.database@ == self.database@,
            copy.storage_collection@ == self.storage_collection@,
            copy.create_indexes_on_initialise == self.create_indexes_on_initialise,
    {
        MongoDbDriverOptions {
            connection_string: self.connection_string.clone(),
            database: self.database.clone(),
            storage_collection: self.storage_collection.clone(),
            create_indexes_on_initialise: self.create_indexes_on_initialise,
        }
    }
}

/// The capabilities of the MongoDB driver.
pub open spec fn spec_mongodb_capabilities() -> Capabilities {
    Capabilities {
        transactions: false,
        ttl: true,
        prefix_scan: true,
        atomic_increment: false,
        batch_write: true,
        raw_sql: false,
        document_query: false,
        json_query: false,
        migrations: false,
        connection_pooling: true,
        watch: false,
        backup: false,
    }
}

/// Capabilities for the implemented MongoDB driver.
pub fn mongodb_capabilities() -> (caps: Capabilities)
    ensures
        caps == spec_mongodb_capabilities(),
{
    Capabilities {
        transactions: false,
        ttl: true,
        prefix_scan: true,
        atomic_increment: false,
        batch_write: true,
        raw_sql: false,
        document_query: false,
        json_query: false,
        migrations: false,
        connection_pooling: true,
        watch: false,
        backup: false,
    }
}

/// The client type of the `mongodb` crate.
#[verifier::external_type_specification]
#[verifier::external_body]
pub struct ExMongoClient(::mongodb::Client);

/// MongoDB document-backed driver. The client connects when the driver is
/// initialised.
#[derive(Debug)]
pub struct MongoDbDriver {
    options: MongoDbDriverOptions,
    client: parking_lot::Mutex<Option<::mongodb::Client>>,
}

impl MongoDbDriver {
    /// The configured options.
    pub closed spec fn spec_options(&self) -> MongoDbDriverOptions {
        self.options
    }

    /// Creates a new MongoDB driver using default options.
    pub fn new(connection_string: &str) -> (driver: Self)
        ensures
            driver.spec_options().connection_string@ == connection_string@,
            driver.spec_options().database@ == "yugendb"@,
            driver.spec_options().storage_collection@ == STORAGE_COLLECTION_NAME@,
            driver.spec_options().create_indexes_on_initialise,
    {
        Self::with_options(MongoDbDriverOptions::new(connection_string))
    }

    /// Creates a new MongoDB driver with explicit options.
    pub fn with_options(options: MongoDbDriverOptions) -> (driver: Self)
        ensures
            driver.spec_options() == options,
    {
        MongoDbDriver { options, client: empty_slot() }
    }

    /// Returns configured options.
    pub fn options(&self) -> (options: &MongoDbDriverOptions)
        ensures
            *options == self.spec_options(),
    {
        &self.options
    }

    /// The slot that the driver holds its client in.
    pub closed spec fn spec_client_slot(&self) -> parking_lot::Mutex<Option<::mongodb::Client>> {
        self.client
    }

    /// The slot that holds the client, empty until initialisation.
    pub fn client_slot(&self) -> (slot: &parking_lot::Mutex<Option<::mongodb::Client>>)
        ensures
            *slot == self.spec_client_slot(),
    {
        &self.client
    }

    /// Stable driver name.
    pub fn name(&self) -> (name: &'static str)
        ensures
            name@ == "mongodb"@,
    {
        "mongodb"
    }

    /// Reports supported driver behaviour.
    pub fn capabilities(&self) -> (caps: Capabilities)
        ensures
            caps == spec_mongodb_capabilities(),
    {
        mongodb_capabilities()
    }
}

impl Clone for MongoDbDriver {
    /// A clone is configured the same way but owns a separate, not yet connected client.
    fn clone(&self) -> (copy: Self)
        ensures
            copy.spec_options().connection_string@ == self.spec_options().connection_string@,
            copy.spec_options().database@ == self.spec_options().database@,
            copy.spec_options().storage_collection@ == self.spec_options().storage_collection@,
            copy.spec_options().create_indexes_on_initialise == self.spec_options().create_indexes_on_initialise,
    {
        Self::with_options(self.options.clone())
    }
}

/// Convenience constructor for the MongoDB driver.
pub fn mongodb(connection_string: &str) -> (driver: MongoDbDriver)
    ensures
        driver.spec_options().connection_string@ == connection_string@,
        driver.spec_options().database@ == "yugendb"@,
        driver.spec_options().storage_collection@ == STORAGE_COLLECTION_NAME@,
        driver.spec_options().create_indexes_on_initialise,
{
    MongoDbDriver::new(connection_string)
}

/// The text of `bson`'s error for a missing field.
pub open spec fn missing_field_text() -> Seq<char> {
    "field is not present"@
}

/// The text of `bson`'s error for a field of another type.
pub open spec fn unexpected_type_text() -> Seq<char> {
    "field does not have the expected type"@
}

/// The message of the error that `bson` reports for a field that a document
/// lacks.
///
/// Calls `ToString::to_string` on `ValueAccessError::NotPresent`, whose
/// `Display` writes `field is not present`.
#[verifier::external_body]
fn missing_field_message() -> (message: String)
    ensures
        message@ == missing_field_text(),
{
    ::mongodb::bson::document::ValueAccessError::NotPresent.to_string()
}

/// The message of the error that `bson` reports for a field that holds a
/// value of another type than the one read.
///
/// Calls `ToString::to_string` on `ValueAccessError::UnexpectedType`, whose
/// `Display` writes `field does not have the expected type`.
#[verifier::external_body]
fn unexpected_type_message() -> (message: String)
    ensures
        message@ == unexpected_type_text(),
{
    ::mongodb::bson::document::ValueAccessError::UnexpectedType.to_string()
}


/// A field of a stored MongoDB document, as far as the document mapping
/// tells its values apart.
#[derive(Debug)]
pub enum DocumentField {
    /// The document has no such field.
    Missing,
    /// The field holds null.
    Null,
    /// The field holds a string.
    Text(String),
    /// The field holds binary data.
    Binary(Vec<u8>),
    /// The field holds a value of another type.
    Other,
}

/// The fields of a stored MongoDB document that the document mapping writes
/// and reads.
#[derive(Debug)]
pub struct StoredDocument {
    /// The namespace field.
    pub namespace: DocumentField,
    /// The collection field.
    pub collection: DocumentField,
    /// The key field.
    pub key: DocumentField,
    /// The field of the serialised value.
    pub value: DocumentField,
    /// The codec field.
    pub codec: DocumentField,
    /// The creation time field.
    pub created_at: DocumentField,
    /// The update time field.
    pub updated_at: DocumentField,
    /// The expiry time field.
    pub expires_at: DocumentField,
}

/// The string that a field holds, if it holds one.
pub open spec fn field_text(field: DocumentField) -> Option<Seq<char>> {
    match field {
        DocumentField::Text(text) => Some(text@),
        _ => None,
    }
}

/// The stored value that a document holds: its value field holds binary
/// data, its codec and times are strings, its times parse, and its expiry
/// is a parsing string, null or absent.
pub open spec fn document_value(document: StoredDocument) -> Option<StoredValueView> {
    match document.value {
        DocumentField::Binary(bytes) => match (
            field_text(document.codec),
            field_text(document.created_at),
            field_text(document.updated_at),
        ) {
            (Some(codec), Some(created), Some(updated)) => match document.expires_at {
                DocumentField::Text(expires) => record_value(bytes@, codec, created, updated, Some(expires@)),
                DocumentField::Null => record_value(bytes@, codec, created, updated, None),
                DocumentField::Missing => record_value(bytes@, codec, created, updated, None),
                _ => None,
            },
            _ => None,
        },
        _ => None,
    }
}

/// The message of the error reported for a document whose value field does
/// not hold binary data.
pub open spec fn invalid_value_field_message() -> Seq<char> {
    "stored document has invalid value field"@
}

/// Reads a string field of a stored document; a field that is missing or
/// holds another type is reported as a MongoDB driver error.
pub fn text_field(field: &DocumentField) -> (text: Result<String, YugenDbError>)
    ensures
        match field_text(*field) {
            Some(t) => text matches Ok(s) && s@ == t,
            None => text matches Err(e) && (e matches YugenDbError::DriverError { driver, .. } && driver@ == "mongodb"@),
        },
        *field is Missing ==> (text matches Err(e) && message_of(e) == missing_field_text()),
        !(*field is Missing) && !(*field is Text) ==> (text matches Err(e) && message_of(e) == unexpected_type_text()),
{
    match field {
        DocumentField::Text(t) => Ok(t.clone()),
        DocumentField::Missing => {
            let message = missing_field_message();
            Err(YugenDbError::driver_error("mongodb", message.as_str()))
        },
        _ => {
            let message = unexpected_type_message();
            Err(YugenDbError::driver_error("mongodb", message.as_str()))
        },
    }
}

/// Reads the key that a stored document is filed under.
pub fn document_key(document: &StoredDocument) -> (key: Result<String, YugenDbError>)
    ensures
        match field_text(document.key) {
            Some(t) => key matches Ok(s) && s@ == t,
            None => key matches Err(e) && (e matches YugenDbError::DriverError { driver, .. } && driver@ == "mongodb"@),
        },
{
    text_field(&document.key)
}

/// The message of the error reported for a document whose expiry field is
/// neither a string nor null.
pub open spec fn invalid_expires_field_message() -> Seq<char> {
    "stored document has invalid expiresAt field"@
}

/// The message of the error for a string field that is missing or holds
/// another type; `None` for a string field.
pub open spec fn text_fault(field: DocumentField) -> Option<Seq<char>> {
    match field {
        DocumentField::Text(_) => None,
        DocumentField::Missing => Some(missing_field_text()),
        _ => Some(unexpected_type_text()),
    }
}

/// The fixed message of the first fault that reading a stored document
/// meets, reading the value, the codec, the creation time, the update time
/// and the expiry in that order. `None` where there is no fault, or where the
/// first is a time that does not parse, whose message is `chrono`'s.
pub open spec fn document_fault(document: StoredDocument) -> Option<Seq<char>> {
    if !(document.value is Binary) {
        Some(invalid_value_field_message())
    } else if text_fault(document.codec) is Some {
        text_fault(document.codec)
    } else if text_fault(document.created_at) is Some {
        text_fault(document.created_at)
    } else if rfc3339_moment(field_text(document.created_at).unwrap()) is None {
        None
    } else if text_fault(document.updated_at) is Some {
        text_fault(document.updated_at)
    } else if rfc3339_moment(field_text(document.updated_at).unwrap()) is None {
        None
    } else {
        match document.expires_at {
            DocumentField::Text(_) => None,
            DocumentField::Null => None,
            DocumentField::Missing => None,
            _ => Some(invalid_expires_field_message()),
        }
    }
}

/// Reads the stored value out of a stored document, reading the value, the
/// codec, the creation time, the update time and the expiry in that order.
/// A document that does not hold one is reported as a MongoDB driver error,
/// with the message of the first fault met.
pub fn value_from_document(document: StoredDocument) -> (value: Result<StoredValue, YugenDbError>)
    ensures
        match document_value(document) {
            Some(v) => value matches Ok(stored) && stored@ == v,
            None => value matches Err(e) && (e matches YugenDbError::DriverError { driver, .. } && driver@ == "mongodb"@),
        },
        document_fault(document) matches Some(message) ==> (value matches Err(e) && message_of(e) == message),
{
    let bytes = match document.value {
        DocumentField::Binary(bytes) => bytes,
        _ => {
            proof {
                reveal_strlit("stored document has invalid value field");
            }
            return Err(YugenDbError::driver_error("mongodb", "stored document has invalid value field"));
        },
    };
    let codec = match text_field(&document.codec) {
        Ok(t) => t,
        Err(e) => {
            return Err(e);
        },
    };
    let created_text = match text_field(&document.created_at) {
        Ok(t) => t,
        Err(e) => {
            return Err(e);
        },
    };
    let created_at = match parse_timestamp("mongodb", created_text.as_str()) {
        Ok(t) => t,
        Err(e) => {
            return Err(e);
        },
    };
    let updated_text = match text_field(&document.updated_at) {
        Ok(t) => t,
        Err(e) => {
            return Err(e);
        },
    };
    let updated_at = match parse_timestamp("mongodb", updated_text.as_str()) {
        Ok(t) => t,
        Err(e) => {
            return Err(e);
        },
    };
    let expires_at = match document.expires_at {
        DocumentField::Text(t) => match parse_timestamp("mongodb", t.as_str()) {
            Ok(moment) => Some(moment),
            Err(e) => {
                return Err(e);
            },
        },
        DocumentField::Null => None,
        DocumentField::Missing => None,
        _ => {
            proof {
                reveal_strlit("stored document has invalid expiresAt field");
            }
            return Err(YugenDbError::driver_error("mongodb", "stored document has invalid expiresAt field"));
        },
    };
    Ok(StoredValue::new(ValueBytes::new(bytes), ValueMetadata { codec, created_at, updated_at, expires_at }))
}

/// Builds the stored document of a record: the namespace, collection and key
/// as strings, the bytes as binary data, the codec as a string, the times as
/// RFC 3339 strings and a missing expiry as null. A time outside the range of
/// dates that can be written is reported as an invalid value. A value whose
/// times are of four-digit years is written so that the document reads back
/// as the same key and value.
pub fn document_from_value(namespace: &Namespace, collection: &CollectionName, key: &Key, value: &StoredValue) -> (document: Result<
    StoredDocument,
    YugenDbError,
>)
    ensures
        match time_texts(value@) {
            Some((created, updated, expires)) => document matches Ok(d) && {
                &&& field_text(d.namespace) == Some(namespace@)
                &&& field_text(d.collection) == Some(collection@)
                &&& field_text(d.key) == Some(key@)
                &&& d.value matches DocumentField::Binary(b) && b@ == value@.bytes
                &&& field_text(d.codec) == Some(value@.codec)
                &&& field_text(d.created_at) == Some(created)
                &&& field_text(d.updated_at) == Some(updated)
                &&& match expires {
                    Some(e) => field_text(d.expires_at) == Some(e),
                    None => d.expires_at is Null,
                }
            },
            None => document matches Err(e) && code_of(e) == ErrorCode::InvalidValue,
        },
        times_round_trip(value@) ==> (document matches Ok(d) && document_value(d) == Some(value@)),
{
    let times = match record_times(value) {
        Ok(t) => t,
        Err(e) => {
            return Err(e);
        },
    };
    let expires_at = match times.expires_at {
        Some(t) => DocumentField::Text(t),
        None => DocumentField::Null,
    };
    Ok(StoredDocument {
        namespace: DocumentField::Text(namespace.as_str().to_owned()),
        collection: DocumentField::Text(collection.as_str().to_owned()),
        key: DocumentField::Text(key.as_str().to_owned()),
        value: DocumentField::Binary(vstd::slice::slice_to_vec(value.bytes.as_slice())),
        codec: DocumentField::Text(value.metadata.codec.clone()),
        created_at: DocumentField::Text(times.created_at),
        updated_at: DocumentField::Text(times.updated_at),
        expires_at,
    })
}

/// The pattern that matches the keys that start with `prefix`.
pub fn prefix_pattern(prefix: &str) -> (pattern: String)
    ensures
        pattern@ == seq!['^'] + regex_escaped(prefix@),
{
    let escaped = regex_escape(prefix);
    let mut pattern = String::new();
    push_char(&mut pattern, '^');
    for c in it: escaped.chars()
        invariant
            it.seq() == escaped@,
            pattern@ == seq!['^'] + escaped@.take(it.index() as int),
    {
        push_char(&mut pattern, c);
        proof {
            assert(escaped@.take(it.index() as int + 1) =~= escaped@.take(it.index() as int).push(c));
        }
    }
    proof {
        assert(escaped@.take(escaped@.len() as int) =~= escaped@);
    }
    pattern
}

/// Characters that a regular expression reads as operators.
pub open spec fn is_regex_operator(c: char) -> bool {
    c == '.' || c == '+' || c == '*' || c == '?' || c == '^' || c == '$' || c == '(' || c == ')' || c == '['
        || c == ']' || c == '{' || c == '}' || c == '|' || c == '\\'
}

/// The escaped form of one character: operators get a backslash before them.
pub open spec fn escape_char(c: char) -> Seq<char> {
    if is_regex_operator(c) {
        seq!['\\', c]
    } else {
        seq![c]
    }
}

/// The escaped form of a text, character by character.
pub open spec fn regex_escaped(text: Seq<char>) -> Seq<char>
    decreases text.len(),
{
    if text.len() == 0 {
        Seq::empty()
    } else {
        escape_char(text[0]) + regex_escaped(text.skip(1))
    }
}

/// Escapes regular-expression operators in a text so that it matches literally.
pub fn regex_escape(value: &str) -> (escaped: String)
    ensures
        escaped@ == regex_escaped(value@),
{
    let mut escaped = String::new();
    proof {
        assert(value@.skip(0) =~= value@);
        assert(escaped@ + regex_escaped(value@) =~= regex_escaped(value@));
    }
    for c in it: value.chars()
        invariant
            it.seq() == value@,
            regex_escaped(value@) == escaped@ + regex_escaped(value@.skip(it.index() as int)),
    {
        let ghost i = it.index() as int;
        let ghost before = escaped@;
        proof {
            assert(value@.skip(i).skip(1) =~= value@.skip(i + 1));
            assert(value@.skip(i)[0] == c);
        }
        let operator = c == '.' || c == '+' || c == '*' || c == '?' || c == '^' || c == '$' || c == '('
            || c == ')' || c == '[' || c == ']' || c == '{' || c == '}' || c == '|' || c == '\\';
        if operator {
            push_char(&mut escaped, '\\');
        }
        push_char(&mut escaped, c);
        proof {
            assert(escaped@ =~= before + escape_char(c));
            assert(before + regex_escaped(value@.skip(i)) =~= escaped@ + regex_escaped(value@.skip(i + 1)));
        }
    }
    proof {
        assert(value@.skip(value@.len() as int) =~= Seq::<char>::empty());
        assert(escaped@ + Seq::<char>::empty() =~= escaped@);
    }
    escaped
}

} // verus!
