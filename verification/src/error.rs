//! The ways in which a JSON value can fail to encode a protocol message.

use vstd::prelude::*;

verus! {

/// Why a JSON value was rejected. Every variant but the first holds the key of the object
/// member at which the fault lies.
#[derive(Clone, Copy, Debug, PartialEq, Eq)]
pub enum DecodeError {
    /// The message itself is no JSON object.
    NotAnObject,
    /// A member that the record requires is absent from the object.
    MissingField(&'static str),
    /// The object holds more than one member under this key.
    RepeatedField(&'static str),
    /// The value under this key is of another JSON type than the field.
    WrongType(&'static str),
    /// The integer under this key does not fit the field's integer type.
    OutOfRange(&'static str),
    /// The integer under this key is no torrent status code.
    UnknownStatus(&'static str),
    /// The string under this key is no token of the field's enumeration.
    UnknownToken(&'static str),
    /// The string under this key is no semantic version.
    BadVersion(&'static str),
    /// The object under this key holds neither of the keys that tell the two outcomes of adding
    /// a torrent apart.
    NoVariant(&'static str),
}

impl DecodeError {
    /// The key of the member at which the fault lies; `None` where the message itself is at
    /// fault.
    pub fn key(self) -> (key: Option<&'static str>)
        ensures
            key == match self {
                DecodeError::NotAnObject => None::<&'static str>,
                DecodeError::MissingField(k) => Some(k),
                DecodeError::RepeatedField(k) => Some(k),
                DecodeError::WrongType(k) => Some(k),
                DecodeError::OutOfRange(k) => Some(k),
                DecodeError::UnknownStatus(k) => Some(k),
                DecodeError::UnknownToken(k) => Some(k),
                DecodeError::BadVersion(k) => Some(k),
                DecodeError::NoVariant(k) => Some(k),
            },
    {
        match self {
            DecodeError::NotAnObject => None,
            DecodeError::MissingField(k) => Some(k),
            DecodeError::RepeatedField(k) => Some(k),
            DecodeError::WrongType(k) => Some(k),
            DecodeError::OutOfRange(k) => Some(k),
            DecodeError::UnknownStatus(k) => Some(k),
            DecodeError::UnknownToken(k) => Some(k),
            DecodeError::BadVersion(k) => Some(k),
            DecodeError::NoVariant(k) => Some(k),
        }
    }
}

/// The first of two findings: a fault found earlier hides the ones found later.
pub trait Finding: Sized {
    /// This finding where it is a fault, and the next one where it is none.
    spec fn otherwise(self, next: Self) -> Self;
}

impl Finding for Option<DecodeError> {
    open spec fn otherwise(self, next: Self) -> Self {
        if self is Some {
            self
        } else {
            next
        }
    }
}

} // verus!
