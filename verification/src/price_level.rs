//! Failures of price level operations.

use crate::debug::{write_text, written};
use crate::text::{lemma_woven_one, lemma_woven_two, same_but_for_parts, woven};
use pricelevel::PriceLevelError as Raw;
use vstd::prelude::*;

verus! {

/// A failure reported by a price level.
pub enum PriceLevelError {
    /// Parsing failed.
    ParseError {
        /// What failed to parse.
        message: String,
    },
    /// The input is not in the expected format.
    InvalidFormat,
    /// The named order type is not known.
    UnknownOrderType(String),
    /// The named field is missing.
    MissingField(String),
    /// The order id is already in use.
    DuplicateOrderId(String),
    /// A field holds a value that is not allowed.
    InvalidFieldValue {
        /// The name of the field.
        field: String,
        /// The value it holds.
        value: String,
    },
    /// The operation is not permitted.
    InvalidOperation {
        /// Why it is not permitted.
        message: String,
    },
    /// Serialization failed.
    SerializationError {
        /// What failed.
        message: String,
    },
    /// Deserialization failed.
    DeserializationError {
        /// What failed.
        message: String,
    },
    /// A checksum did not match its data.
    ChecksumMismatch {
        /// The checksum that came with the data.
        expected: String,
        /// The checksum of the data.
        actual: String,
    },
}

impl PriceLevelError {
    /// The message a price level gives for this failure.
    pub open spec fn text(self) -> Seq<char> {
        match self {
            PriceLevelError::ParseError { message } => message@,
            PriceLevelError::InvalidFormat => "Invalid format"@,
            PriceLevelError::UnknownOrderType(name) => "Unknown order type: "@ + name@,
            PriceLevelError::MissingField(field) => "Missing field: "@ + field@,
            PriceLevelError::DuplicateOrderId(id) => "Duplicate order id: "@ + id@,
            PriceLevelError::InvalidFieldValue { field, value } => "Invalid value for field "@
                + field@ + ": "@ + value@,
            PriceLevelError::InvalidOperation { message } => "Invalid operation: "@ + message@,
            PriceLevelError::SerializationError { message } => "Serialization error: "@ + message@,
            PriceLevelError::DeserializationError { message } => "Deserialization error: "@
                + message@,
            PriceLevelError::ChecksumMismatch { expected, actual } => {
                "Checksum mismatch: expected "@ + expected@ + ", got "@ + actual@
            },
        }
    }

    /// Writes the message a price level gives for this failure.
    pub fn to_string(&self) -> (text: String)
        ensures
            text@ == self.text(),
    {
        price_level_error_text(self.clone())
    }
}

impl core::fmt::Debug for PriceLevelError {
    /// Writes the message a price level gives for this failure.
    fn fmt(&self, formatter: &mut core::fmt::Formatter<'_>) -> (outcome: Result<
        (),
        core::fmt::Error,
    >)
        ensures
            outcome is Ok ==> written(*final(formatter)) == written(*old(formatter)) + self.text(),
    {
        write_text(formatter, self.to_string().as_str())
    }
}

impl Clone for PriceLevelError {
    fn clone(&self) -> (cloned: PriceLevelError)
        ensures
            cloned == *self,
    {
        match self {
            PriceLevelError::ParseError { message } => PriceLevelError::ParseError {
                message: message.clone(),
            },
            PriceLevelError::InvalidFormat => PriceLevelError::InvalidFormat,
            PriceLevelError::UnknownOrderType(name) => PriceLevelError::UnknownOrderType(
                name.clone(),
            ),
            PriceLevelError::MissingField(field) => PriceLevelError::MissingField(field.clone()),
            PriceLevelError::DuplicateOrderId(id) => PriceLevelError::DuplicateOrderId(id.clone()),
            PriceLevelError::InvalidFieldValue {
                field,
                value,
            } => PriceLevelError::InvalidFieldValue { field: field.clone(), value: value.clone() },
            PriceLevelError::InvalidOperation { message } => PriceLevelError::InvalidOperation {
                message: message.clone(),
            },
            PriceLevelError::SerializationError { message } => PriceLevelError::SerializationError {
                message: message.clone(),
            },
            PriceLevelError::DeserializationError {
                message,
            } => PriceLevelError::DeserializationError { message: message.clone() },
            PriceLevelError::ChecksumMismatch {
                expected,
                actual,
            } => PriceLevelError::ChecksumMismatch {
                expected: expected.clone(),
                actual: actual.clone(),
            },
        }
    }
}

/// The messages of two failures of one kind are the same but for their fields,
/// each of which has a place of its own.
pub proof fn lemma_failures_differ_in_their_fields(left: PriceLevelError, right: PriceLevelError)
    ensures
        match (left, right) {
            (
                PriceLevelError::ParseError { message: message_1 },
                PriceLevelError::ParseError { message: message_2 },
            ) => same_but_for_parts(
                left.text(),
                seq![message_1@],
                right.text(),
                seq![message_2@],
            ),
            (
                PriceLevelError::UnknownOrderType(name_1),
                PriceLevelError::UnknownOrderType(name_2),
            ) => same_but_for_parts(
                left.text(),
                seq![name_1@],
                right.text(),
                seq![name_2@],
            ),
            (
                PriceLevelError::MissingField(field_1),
                PriceLevelError::MissingField(field_2),
            ) => same_but_for_parts(
                left.text(),
                seq![field_1@],
                right.text(),
                seq![field_2@],
            ),
            (
                PriceLevelError::DuplicateOrderId(id_1),
                PriceLevelError::DuplicateOrderId(id_2),
            ) => same_but_for_parts(
                left.text(),
                seq![id_1@],
                right.text(),
                seq![id_2@],
            ),
            (
                PriceLevelError::InvalidFieldValue { field: field_1, value: value_1 },
                PriceLevelError::InvalidFieldValue { field: field_2, value: value_2 },
            ) => same_but_for_parts(
                left.text(),
                seq![field_1@, value_1@],
                right.text(),
                seq![field_2@, value_2@],
            ),
            (
                PriceLevelError::InvalidOperation { message: message_1 },
                PriceLevelError::InvalidOperation { message: message_2 },
            ) => same_but_for_parts(
                left.text(),
                seq![message_1@],
                right.text(),
                seq![message_2@],
            ),
            (
                PriceLevelError::SerializationError { message: message_1 },
                PriceLevelError::SerializationError { message: message_2 },
            ) => same_but_for_parts(
                left.text(),
                seq![message_1@],
                right.text(),
                seq![message_2@],
            ),
            (
                PriceLevelError::DeserializationError { message: message_1 },
                PriceLevelError::DeserializationError { message: message_2 },
            ) => same_but_for_parts(
                left.text(),
                seq![message_1@],
                right.text(),
                seq![message_2@],
            ),
            (
                PriceLevelError::ChecksumMismatch { expected: expected_1, actual: actual_1 },
                PriceLevelError::ChecksumMismatch { expected: expected_2, actual: actual_2 },
            ) => same_but_for_parts(
                left.text(),
                seq![expected_1@, actual_1@],
                right.text(),
                seq![expected_2@, actual_2@],
            ),
            _ => true,
        },
{
    match (left, right) {
        (
            PriceLevelError::ParseError { message: message_1 },
            PriceLevelError::ParseError { message: message_2 },
        ) => {
            lemma_woven_one(Seq::empty(), message_1@, Seq::empty());
            assert(left.text() =~= woven(seq![Seq::empty(), Seq::empty()], seq![message_1@]));
            lemma_woven_one(Seq::empty(), message_2@, Seq::empty());
            assert(right.text() =~= woven(seq![Seq::empty(), Seq::empty()], seq![message_2@]));
        },
        (
            PriceLevelError::UnknownOrderType(name_1),
            PriceLevelError::UnknownOrderType(name_2),
        ) => {
            lemma_woven_one("Unknown order type: "@, name_1@, Seq::empty());
            assert(
                left.text() =~= woven(seq!["Unknown order type: "@, Seq::empty()], seq![name_1@])
            );
            lemma_woven_one("Unknown order type: "@, name_2@, Seq::empty());
            assert(
                right.text() =~= woven(seq!["Unknown order type: "@, Seq::empty()], seq![name_2@])
            );
        },
        (
            PriceLevelError::MissingField(field_1),
            PriceLevelError::MissingField(field_2),
        ) => {
            lemma_woven_one("Missing field: "@, field_1@, Seq::empty());
            assert(left.text() =~= woven(seq!["Missing field: "@, Seq::empty()], seq![field_1@]));
            lemma_woven_one("Missing field: "@, field_2@, Seq::empty());
            assert(right.text() =~= woven(seq!["Missing field: "@, Seq::empty()], seq![field_2@]));
        },
        (
            PriceLevelError::DuplicateOrderId(id_1),
            PriceLevelError::DuplicateOrderId(id_2),
        ) => {
            lemma_woven_one("Duplicate order id: "@, id_1@, Seq::empty());
            assert(left.text() =~= woven(seq!["Duplicate order id: "@, Seq::empty()], seq![id_1@]));
            lemma_woven_one("Duplicate order id: "@, id_2@, Seq::empty());
            assert(
                right.text() =~= woven(seq!["Duplicate order id: "@, Seq::empty()], seq![id_2@])
            );
        },
        (
            PriceLevelError::InvalidFieldValue { field: field_1, value: value_1 },
            PriceLevelError::InvalidFieldValue { field: field_2, value: value_2 },
        ) => {
            lemma_woven_two("Invalid value for field "@, field_1@, ": "@, value_1@, Seq::empty());
            assert(
                left.text() =~= woven(seq!["Invalid value for field "@, ": "@, Seq::empty()], seq![field_1@, value_1@])
            );
            lemma_woven_two("Invalid value for field "@, field_2@, ": "@, value_2@, Seq::empty());
            assert(
                right.text() =~= woven(seq!["Invalid value for field "@, ": "@, Seq::empty()], seq![field_2@, value_2@])
            );
        },
        (
            PriceLevelError::InvalidOperation { message: message_1 },
            PriceLevelError::InvalidOperation { message: message_2 },
        ) => {
            lemma_woven_one("Invalid operation: "@, message_1@, Seq::empty());
            assert(
                left.text() =~= woven(seq!["Invalid operation: "@, Seq::empty()], seq![message_1@])
            );
            lemma_woven_one("Invalid operation: "@, message_2@, Seq::empty());
            assert(
                right.text() =~= woven(seq!["Invalid operation: "@, Seq::empty()], seq![message_2@])
            );
        },
        (
            PriceLevelError::SerializationError { message: message_1 },
            PriceLevelError::SerializationError { message: message_2 },
        ) => {
            lemma_woven_one("Serialization error: "@, message_1@, Seq::empty());
            assert(
                left.text() =~= woven(seq!["Serialization error: "@, Seq::empty()], seq![message_1@])
            );
            lemma_woven_one("Serialization error: "@, message_2@, Seq::empty());
            assert(
                right.text() =~= woven(seq!["Serialization error: "@, Seq::empty()], seq![message_2@])
            );
        },
        (
            PriceLevelError::DeserializationError { message: message_1 },
            PriceLevelError::DeserializationError { message: message_2 },
        ) => {
            lemma_woven_one("Deserialization error: "@, message_1@, Seq::empty());
            assert(
                left.text() =~= woven(seq!["Deserialization error: "@, Seq::empty()], seq![message_1@])
            );
            lemma_woven_one("Deserialization error: "@, message_2@, Seq::empty());
            assert(
                right.text() =~= woven(seq!["Deserialization error: "@, Seq::empty()], seq![message_2@])
            );
        },
        (
            PriceLevelError::ChecksumMismatch { expected: expected_1, actual: actual_1 },
            PriceLevelError::ChecksumMismatch { expected: expected_2, actual: actual_2 },
        ) => {
            lemma_woven_two(
                "Checksum mismatch: expected "@,
                expected_1@,
                ", got "@,
                actual_1@,
                Seq::empty(),
            );
            assert(
                left.text() =~= woven(seq!["Checksum mismatch: expected "@, ", got "@, Seq::empty()], seq![expected_1@, actual_1@])
            );
            lemma_woven_two(
                "Checksum mismatch: expected "@,
                expected_2@,
                ", got "@,
                actual_2@,
                Seq::empty(),
            );
            assert(
                right.text() =~= woven(seq!["Checksum mismatch: expected "@, ", got "@, Seq::empty()], seq![expected_2@, actual_2@])
            );
        },
        _ => {},
    }
}

/// The message of a failure, by the `Display` of
/// `pricelevel::PriceLevelError`: the bare message of a parse failure, and
/// for every other failure a fixed phrase with its fields set into it.
#[verifier::external_body]
fn price_level_error_text(error: PriceLevelError) -> (text: String)
    ensures
        text@ == error.text(),
{
    let raw = match error {
        PriceLevelError::ParseError { message } => Raw::ParseError { message },
        PriceLevelError::InvalidFormat => Raw::InvalidFormat,
        PriceLevelError::UnknownOrderType(name) => Raw::UnknownOrderType(name),
        PriceLevelError::MissingField(field) => Raw::MissingField(field),
        PriceLevelError::DuplicateOrderId(id) => Raw::DuplicateOrderId(id),
        PriceLevelError::InvalidFieldValue { field, value } => Raw::InvalidFieldValue { field, value },
        PriceLevelError::InvalidOperation { message } => Raw::InvalidOperation { message },
        PriceLevelError::SerializationError { message } => Raw::SerializationError { message },
        PriceLevelError::DeserializationError { message } => Raw::DeserializationError { message },
        PriceLevelError::ChecksumMismatch { expected, actual } => Raw::ChecksumMismatch { expected, actual },
    };
    raw.to_string()
}

} // verus!
