//! Decode-time failures. Encoding never fails on well-formed values; every
//! decode failure is returned as one of these typed errors, and a nested
//! failure propagates unchanged, preserving the innermost cause.

use vstd::prelude::*;

verus! {

/// A decode failure.
#[derive(Debug, PartialEq)]
pub enum CodecError {
    /// The text does not parse as RFC3339.
    MalformedTimestamp { text: String },
    /// The tag is not in the enumeration's declared closed set.
    UnknownEnumerationValue { enum_name: String, received_tag: String },
    /// A mandatory key is absent from the input object.
    MissingRequiredField { field: String },
    /// A key is present but its value's shape disagrees with the declared type.
    TypeMismatch { field: String, expected: String, found: String },
}

/// The mathematical model of a [`CodecError`].
pub enum ErrorV {
    MalformedTimestamp { text: Seq<char> },
    UnknownEnumerationValue { enum_name: Seq<char>, received_tag: Seq<char> },
    MissingRequiredField { field: Seq<char> },
    TypeMismatch { field: Seq<char>, expected: Seq<char>, found: Seq<char> },
}

impl View for CodecError {
    type V = ErrorV;

    open spec fn view(&self) -> ErrorV {
        match self {
            CodecError::MalformedTimestamp { text } => ErrorV::MalformedTimestamp {
                text: text@,
            },
            CodecError::UnknownEnumerationValue { enum_name, received_tag } => {
                ErrorV::UnknownEnumerationValue {
                    enum_name: enum_name@,
                    received_tag: received_tag@,
                }
            },
            CodecError::MissingRequiredField { field } => ErrorV::MissingRequiredField {
                field: field@,
            },
            CodecError::TypeMismatch { field, expected, found } => ErrorV::TypeMismatch {
                field: field@,
                expected: expected@,
                found: found@,
            },
        }
    }
}

} // verus!
