//! The two error kinds of the pipeline, and one more for the typed layer.
//!
//! A *format* error describes which validation of a decode failed; an *I/O*
//! error stands for a read or write failure of the surrounding program on the
//! underlying byte source (nothing in this crate performs I/O, so nothing in
//! it constructs that variant). The typed payload layer adds an *unsupported
//! event type* error for raw records whose event type has no typed decoder
//! yet, kept distinct from format errors.

use vstd::prelude::*;

use crate::decimal::i64_str;
use crate::decimal::i64_to_string;
use crate::event_type::spec_type_to_code;
use crate::event_type::EventType;

verus! {

/// An error raised while decoding or collecting records.
#[derive(Debug)]
pub enum SensorReadoutParserError {
    /// A read or write failure on the underlying byte source.
    IoError,
    /// A line or payload that does not satisfy the format, with a message
    /// naming the validation that failed.
    FileFormatError(String),
    /// A raw record whose event type has no typed payload decoder.
    UnsupportedEventType(EventType),
}

/// The mathematical shape of an error: its kind and, for a format error, the
/// message characters.
pub enum ErrorModel {
    Io,
    Format(Seq<char>),
    Unsupported(EventType),
}

impl View for SensorReadoutParserError {
    type V = ErrorModel;

    open spec fn view(&self) -> ErrorModel {
        match self {
            SensorReadoutParserError::IoError => ErrorModel::Io,
            SensorReadoutParserError::FileFormatError(m) => ErrorModel::Format(m@),
            SensorReadoutParserError::UnsupportedEventType(t) => ErrorModel::Unsupported(*t),
        }
    }
}

/// The text an error surfaces to users and logs.
pub open spec fn spec_message(e: ErrorModel) -> Seq<char> {
    match e {
        ErrorModel::Io => "IoError during parsing"@,
        ErrorModel::Format(m) => "An error in the file's format has occured and could not be parsed: "@
            + m,
        ErrorModel::Unsupported(t) => "Unsupported event type: "@ + i64_str(
            spec_type_to_code(t) as int,
        ),
    }
}

impl SensorReadoutParserError {
    /// The descriptive text of this error, fit to surface verbatim.
    pub fn message(&self) -> (r: String)
        ensures
            r@ == spec_message(self@),
    {
        match self {
            SensorReadoutParserError::IoError => String::from_str("IoError during parsing"),
            SensorReadoutParserError::FileFormatError(m) => String::from_str(
                "An error in the file's format has occured and could not be parsed: ",
            ).concat(m.as_str()),
            SensorReadoutParserError::UnsupportedEventType(t) => String::from_str(
                "Unsupported event type: ",
            ).concat(i64_to_string(t.type_to_code()).as_str()),
        }
    }
}

} // verus!
