//! Reader/writer for a line-oriented sensor-readout log format.
//!
//! Each line of the format is `<timestamp>;<event code>;<parameter string>`:
//! an unsigned 64-bit decimal timestamp, a signed 64-bit decimal event-type
//! code, and an untyped parameter payload that may itself contain `;`.
//! The crate decodes and encodes single lines, scans a whole source line by
//! line, collects all records fail-fast, and interprets the one payload shape
//! that has a typed form today (file metadata, with an RFC 3339 date).

use vstd::prelude::*;

pub mod date_time;
pub mod decimal;
pub mod error;
pub mod event_type;
pub mod raw_event;
pub mod scanner;
pub mod text;
pub mod typed_event;

pub use date_time::UtcDateTime;
pub use error::SensorReadoutParserError;
pub use event_type::EventType;
pub use raw_event::RawSensorEvent;
pub use raw_event::Serializer;
pub use scanner::AggregatingParser;
pub use scanner::VisitingParser;
pub use typed_event::SensorEvent;
pub use typed_event::SensorEventData;

verus! {

/// A sensor clock reading, taken verbatim from the first field of a line.
pub type Timestamp = u64;

/// The numeric code that identifies an event type on the wire.
pub type EventId = i64;

} // verus!
