//! Namespace, collection name and key validation.

use vstd::prelude::*;

use vstd::std_specs::convert::TryFromSpecImpl;

use crate::error::{code_of, ErrorCode, YugenDbError};

verus! {

/// The name used for the default namespace and the default collection.
pub const DEFAULT_NAME: &'static str = "default";

/// A Unicode control character (general category `Cc`): U+0000 to U+001F and
/// U+007F to U+009F. This is the set that `char::is_control` accepts.
pub open spec fn is_control_char(c: char) -> bool {
    (c as u32) <= 0x1f || (0x7f <= (c as u32) && (c as u32) <= 0x9f)
}

/// A name component is valid when it is non-empty and holds no control character.
pub open spec fn valid_component(text: Seq<char>) -> bool {
    &&& text.len() > 0
    &&& forall|i: int| 0 <= i < text.len() ==> !is_control_char(#[trigger] text[i])
}

/// The three kinds of name component that are validated.
#[derive(Debug, Clone, Copy, PartialEq, Eq, Structural)]
pub enum ComponentKind {
    /// A namespace.
    Namespace,
    /// A collection name.
    Collection,
    /// A key.
    Key,
}

/// The error code reported for an invalid component of each kind.
pub open spec fn component_error_code(kind: ComponentKind) -> ErrorCode {
    match kind {
        ComponentKind::Namespace => ErrorCode::InvalidNamespace,
        ComponentKind::Collection => ErrorCode::InvalidCollection,
        ComponentKind::Key => ErrorCode::InvalidKey,
    }
}

/// The message of the error reported for an invalid component: one for an
/// empty value, one for a value holding a control character.
pub open spec fn component_error_message(kind: ComponentKind, empty: bool) -> Seq<char> {
    match (kind, empty) {
        (ComponentKind::Namespace, true) => "namespace must not be empty"@,
        (ComponentKind::Collection, true) => "collection name must not be empty"@,
        (ComponentKind::Key, true) => "key must not be empty"@,
        (ComponentKind::Namespace, false) => "namespace must not contain control characters"@,
        (ComponentKind::Collection, false) => "collection name must not contain control characters"@,
        (ComponentKind::Key, false) => "key must not contain control characters"@,
    }
}

/// The message carried by an error.
pub open spec fn message_of(error: YugenDbError) -> Seq<char> {
    match error {
        YugenDbError::NotFound { message } => message@,
        YugenDbError::ConnectionError { message } => message@,
        YugenDbError::SerialisationError { message } => message@,
        YugenDbError::DeserialisationError { message } => message@,
        YugenDbError::Timeout { message } => message@,
        YugenDbError::Conflict { message } => message@,
        YugenDbError::TransactionAborted { message } => message@,
        YugenDbError::UnsupportedFeature { message, .. } => message@,
        YugenDbError::ConstraintViolation { message } => message@,
        YugenDbError::InvalidKey { message } => message@,
        YugenDbError::InvalidNamespace { message } => message@,
        YugenDbError::InvalidCollection { message } => message@,
        YugenDbError::InvalidValue { message } => message@,
        YugenDbError::DriverError { message, .. } => message@,
        YugenDbError::InternalError { message } => message@,
    }
}

/// What validating `text` as a component of `kind` returns.
pub open spec fn validation_outcome<T>(kind: ComponentKind, text: Seq<char>, result: Result<T, YugenDbError>) -> bool {
    match result {
        Ok(_) => valid_component(text),
        Err(e) => {
            &&& !valid_component(text)
            &&& code_of(e) == component_error_code(kind)
            &&& message_of(e) == component_error_message(kind, text.len() == 0)
        },
    }
}

/// Returns whether `c` is a control character.
pub fn is_control(c: char) -> (result: bool)
    ensures
        result == is_control_char(c),
{
    let code = c as u32;
    code <= 0x1f || (0x7f <= code && code <= 0x9f)
}

fn component_error(kind: ComponentKind, empty: bool) -> (error: YugenDbError)
    ensures
        code_of(error) == component_error_code(kind),
        message_of(error) == component_error_message(kind, empty),
{
    proof {
        reveal_strlit("namespace must not be empty");
        reveal_strlit("collection name must not be empty");
        reveal_strlit("key must not be empty");
        reveal_strlit("namespace must not contain control characters");
        reveal_strlit("collection name must not contain control characters");
        reveal_strlit("key must not contain control characters");
    }
    match (kind, empty) {
        (ComponentKind::Namespace, true) => YugenDbError::invalid_namespace("namespace must not be empty"),
        (ComponentKind::Collection, true) => YugenDbError::invalid_collection("collection name must not be empty"),
        (ComponentKind::Key, true) => YugenDbError::invalid_key("key must not be empty"),
        (ComponentKind::Namespace, false) => YugenDbError::invalid_namespace(
            "namespace must not contain control characters",
        ),
        (ComponentKind::Collection, false) => YugenDbError::invalid_collection(
            "collection name must not contain control characters",
        ),
        (ComponentKind::Key, false) => YugenDbError::invalid_key("key must not contain control characters"),
    }
}

/// Validates one name component: it must be non-empty and free of control characters.
pub fn validate_component(kind: ComponentKind, value: &str) -> (result: Result<(), YugenDbError>)
    ensures
        validation_outcome(kind, value@, result),
{
    if value.is_empty() {
        return Err(component_error(kind, true));
    }
    for c in it: value.chars()
        invariant
            it.seq() == value@,
            value@.len() > 0,
            forall|j: int| 0 <= j < it.index() ==> !is_control_char(#[trigger] value@[j]),
    {
        if is_control(c) {
            return Err(component_error(kind, false));
        }
    }
    Ok(())
}

/// Logical storage partition above collections.
#[derive(Debug, PartialEq, Eq, PartialOrd, Ord, Hash)]
pub struct Namespace(String);

impl View for Namespace {
    type V = Seq<char>;

    closed spec fn view(&self) -> Seq<char> {
        self.0@
    }
}

impl Namespace {
    #[verifier::type_invariant]
    spec fn well_formed(self) -> bool {
        valid_component(self.0@)
    }

    /// Creates a validated namespace.
    pub fn new(value: &str) -> (result: Result<Self, YugenDbError>)
        ensures
            validation_outcome(ComponentKind::Namespace, value@, result),
            result matches Ok(v) ==> v@ == value@,
    {
        match validate_component(ComponentKind::Namespace, value) {
            Ok(()) => Ok(Namespace(value.to_owned())),
            Err(e) => Err(e),
        }
    }

    /// Returns the default namespace.
    pub fn default_namespace() -> (result: Self)
        ensures
            result@ == DEFAULT_NAME@,
    {
        proof {
            reveal_strlit("default");
        }
        Namespace(DEFAULT_NAME.to_owned())
    }

    /// Returns the namespace as a string slice.
    pub fn as_str(&self) -> (text: &str)
        ensures
            text@ == self@,
            valid_component(self@),
    {
        proof {
            use_type_invariant(self);
        }
        self.0.as_str()
    }
}

impl Clone for Namespace {
    fn clone(&self) -> (copy: Self)
        ensures
            copy@ == self@,
    {
        proof {
            use_type_invariant(self);
        }
        Namespace(self.0.clone())
    }
}

impl TryFromSpecImpl<String> for Namespace {
    open spec fn obeys_try_from_spec() -> bool {
        false
    }

    open spec fn try_from_spec(value: String) -> Result<Self, YugenDbError> {
        arbitrary()
    }
}

impl TryFrom<String> for Namespace {
    type Error = YugenDbError;

    fn try_from(value: String) -> (result: Result<Self, YugenDbError>)
        ensures
            validation_outcome(ComponentKind::Namespace, value@, result),
            result matches Ok(v) ==> v@ == value@,
    {
        Self::new(value.as_str())
    }
}

impl<'a> TryFromSpecImpl<&'a str> for Namespace {
    open spec fn obeys_try_from_spec() -> bool {
        false
    }

    open spec fn try_from_spec(value: &'a str) -> Result<Self, YugenDbError> {
        arbitrary()
    }
}

impl<'a> TryFrom<&'a str> for Namespace {
    type Error = YugenDbError;

    fn try_from(value: &'a str) -> (result: Result<Self, YugenDbError>)
        ensures
            validation_outcome(ComponentKind::Namespace, value@, result),
            result matches Ok(v) ==> v@ == value@,
    {
        Self::new(value)
    }
}

impl AsRef<str> for Namespace {
    fn as_ref(&self) -> (text: &str)
        ensures
            text@ == self@,
    {
        self.as_str()
    }
}

impl Default for Namespace {
    fn default() -> (result: Self)
        ensures
            result@ == DEFAULT_NAME@,
    {
        Self::default_namespace()
    }
}

/// Logical collection name inside a namespace.
#[derive(Debug, PartialEq, Eq, PartialOrd, Ord, Hash)]
pub struct CollectionName(String);

impl View for CollectionName {
    type V = Seq<char>;

    closed spec fn view(&self) -> Seq<char> {
        self.0@
    }
}

impl CollectionName {
    #[verifier::type_invariant]
    spec fn well_formed(self) -> bool {
        valid_component(self.0@)
    }

    /// Creates a validated collection name.
    pub fn new(value: &str) -> (result: Result<Self, YugenDbError>)
        ensures
            validation_outcome(ComponentKind::Collection, value@, result),
            result matches Ok(v) ==> v@ == value@,
    {
        match validate_component(ComponentKind::Collection, value) {
            Ok(()) => Ok(CollectionName(value.to_owned())),
            Err(e) => Err(e),
        }
    }

    /// Returns the default collection name.
    pub fn default_collection() -> (result: Self)
        ensures
            result@ == DEFAULT_NAME@,
    {
        proof {
            reveal_strlit("default");
        }
        CollectionName(DEFAULT_NAME.to_owned())
    }

    /// Returns the collection name as a string slice.
    pub fn as_str(&self) -> (text: &str)
        ensures
            text@ == self@,
            valid_component(self@),
    {
        proof {
            use_type_invariant(self);
        }
        self.0.as_str()
    }
}

impl Clone for CollectionName {
    fn clone(&self) -> (copy: Self)
        ensures
            copy@ == self@,
    {
        proof {
            use_type_invariant(self);
        }
        CollectionName(self.0.clone())
    }
}

impl TryFromSpecImpl<String> for CollectionName {
    open spec fn obeys_try_from_spec() -> bool {
        false
    }

    open spec fn try_from_spec(value: String) -> Result<Self, YugenDbError> {
        arbitrary()
    }
}

impl TryFrom<String> for CollectionName {
    type Error = YugenDbError;

    fn try_from(value: String) -> (result: Result<Self, YugenDbError>)
        ensures
            validation_outcome(ComponentKind::Collection, value@, result),
            result matches Ok(v) ==> v@ == value@,
    {
        Self::new(value.as_str())
    }
}

impl<'a> TryFromSpecImpl<&'a str> for CollectionName {
    open spec fn obeys_try_from_spec() -> bool {
        false
    }

    open spec fn try_from_spec(value: &'a str) -> Result<Self, YugenDbError> {
        arbitrary()
    }
}

impl<'a> TryFrom<&'a str> for CollectionName {
    type Error = YugenDbError;

    fn try_from(value: &'a str) -> (result: Result<Self, YugenDbError>)
        ensures
            validation_outcome(ComponentKind::Collection, value@, result),
            result matches Ok(v) ==> v@ == value@,
    {
        Self::new(value)
    }
}

impl AsRef<str> for CollectionName {
    fn as_ref(&self) -> (text: &str)
        ensures
            text@ == self@,
    {
        self.as_str()
    }
}

impl Default for CollectionName {
    fn default() -> (result: Self)
        ensures
            result@ == DEFAULT_NAME@,
    {
        Self::default_collection()
    }
}

/// Stable key inside a namespace and collection.
#[derive(Debug, PartialEq, Eq, PartialOrd, Ord, Hash)]
pub struct Key(String);

impl View for Key {
    type V = Seq<char>;

    closed spec fn view(&self) -> Seq<char> {
        self.0@
    }
}

impl Key {
    #[verifier::type_invariant]
    spec fn well_formed(self) -> bool {
        valid_component(self.0@)
    }

    /// Creates a validated key.
    pub fn new(value: &str) -> (result: Result<Self, YugenDbError>)
        ensures
            validation_outcome(ComponentKind::Key, value@, result),
            result matches Ok(v) ==> v@ == value@,
    {
        match validate_component(ComponentKind::Key, value) {
            Ok(()) => Ok(Key(value.to_owned())),
            Err(e) => Err(e),
        }
    }

    /// Returns the key as a string slice.
    pub fn as_str(&self) -> (text: &str)
        ensures
            text@ == self@,
            valid_component(self@),
    {
        proof {
            use_type_invariant(self);
        }
        self.0.as_str()
    }
}

impl Clone for Key {
    fn clone(&self) -> (copy: Self)
        ensures
            copy@ == self@,
    {
        proof {
            use_type_invariant(self);
        }
        Key(self.0.clone())
    }
}

impl TryFromSpecImpl<String> for Key {
    open spec fn obeys_try_from_spec() -> bool {
        false
    }

    open spec fn try_from_spec(value: String) -> Result<Self, YugenDbError> {
        arbitrary()
    }
}

impl TryFrom<String> for Key {
    type Error = YugenDbError;

    fn try_from(value: String) -> (result: Result<Self, YugenDbError>)
        ensures
            validation_outcome(ComponentKind::Key, value@, result),
            result matches Ok(v) ==> v@ == value@,
    {
        Self::new(value.as_str())
    }
}

impl<'a> TryFromSpecImpl<&'a str> for Key {
    open spec fn obeys_try_from_spec() -> bool {
        false
    }

    open spec fn try_from_spec(value: &'a str) -> Result<Self, YugenDbError> {
        arbitrary()
    }
}

impl<'a> TryFrom<&'a str> for Key {
    type Error = YugenDbError;

    fn try_from(value: &'a str) -> (result: Result<Self, YugenDbError>)
        ensures
            validation_outcome(ComponentKind::Key, value@, result),
            result matches Ok(v) ==> v@ == value@,
    {
        Self::new(value)
    }
}

impl AsRef<str> for Key {
    fn as_ref(&self) -> (text: &str)
        ensures
            text@ == self@,
    {
        self.as_str()
    }
}

} // verus!
