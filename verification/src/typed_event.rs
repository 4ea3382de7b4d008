//! The typed payload codec: per-event-type interpretation of the parameter
//! string.
//!
//! One event type has a typed payload shape today: file metadata, whose
//! parameter string reads `<rfc3339-date>;<person>;<comment>` with the same
//! first-two-separators split as the line grammar, so the comment may contain
//! `;`. Every other event type is handled generically at the raw layer only;
//! asking for its typed payload is an explicit, catchable error distinct from
//! a format error.

use vstd::prelude::*;

use crate::date_time::canon_of;
use crate::date_time::valid_date_seq;
use crate::date_time::UtcDateTime;
use crate::error::ErrorModel;
use crate::error::SensorReadoutParserError;
use crate::event_type::EventType;
use crate::raw_event::RawEventModel;
use crate::raw_event::RawSensorEvent;
use crate::text::find_char;
use crate::text::find_from;
use crate::text::lemma_find_from_bounds;
use crate::text::lemma_find_from_exact;
use crate::Timestamp;

verus! {

/// The typed payload of a raw record, one variant per interpreted shape.
#[derive(Debug, Clone)]
pub enum SensorEventData {
    /// The metadata line a recording starts with: when it was taken, by
    /// whom, and a free comment.
    FileMetadata { date: UtcDateTime, person: String, comment: String },
}

/// The mathematical shape of a typed payload.
pub enum SensorEventDataModel {
    FileMetadata { date: Seq<char>, person: Seq<char>, comment: Seq<char> },
}

impl View for SensorEventData {
    type V = SensorEventDataModel;

    open spec fn view(&self) -> SensorEventDataModel {
        match self {
            SensorEventData::FileMetadata { date, person, comment } => SensorEventDataModel::FileMetadata {
                date: date@,
                person: person@,
                comment: comment@,
            },
        }
    }
}

/// Whether a payload model holds a canonical date rendering, as every
/// decoded payload does.
pub open spec fn payload_model_valid(p: SensorEventDataModel) -> bool {
    match p {
        SensorEventDataModel::FileMetadata { date, .. } => valid_date_seq(date),
    }
}

/// The message of a file-metadata payload with fewer than three fields.
pub open spec fn param_count_msg() -> Seq<char> {
    "Invalid number of parameters"@
}

/// The message of a file-metadata date field that denotes no instant.
pub open spec fn date_parse_msg() -> Seq<char> {
    "Failed to parse file timestamp"@
}

/// What decoding a raw record's payload yields: the typed payload, an error
/// naming the validation that failed, or the unsupported-event-type error for
/// a record with no typed shape. The first two `;` of the parameter string
/// separate its fields; the comment keeps any further `;`.
pub open spec fn spec_decode_payload(raw: RawEventModel) -> Result<
    SensorEventDataModel,
    ErrorModel,
> {
    match raw.event_type {
        EventType::FileMetadata => {
            let s = raw.parameter_str;
            match find_from(s, ';', 0) {
                None => Err(ErrorModel::Format(param_count_msg())),
                Some(i1) => match find_from(s, ';', i1 + 1) {
                    None => Err(ErrorModel::Format(param_count_msg())),
                    Some(i2) => match canon_of(s.subrange(0, i1)) {
                        None => Err(ErrorModel::Format(date_parse_msg())),
                        Some(d) => Ok(
                            SensorEventDataModel::FileMetadata {
                                date: d,
                                person: s.subrange(i1 + 1, i2),
                                comment: s.subrange(i2 + 1, s.len() as int),
                            },
                        ),
                    },
                },
            }
        },
        _ => Err(ErrorModel::Unsupported(raw.event_type)),
    }
}

/// What encoding a typed payload yields: the date's canonical rendering, the
/// person and the comment, separated by `;`.
pub open spec fn spec_encode_payload(p: SensorEventDataModel) -> Seq<char> {
    match p {
        SensorEventDataModel::FileMetadata { date, person, comment } => date + seq![';'] + person
            + seq![';'] + comment,
    }
}

impl SensorEventData {
    /// Whether this payload holds a canonical date rendering, as every value
    /// this crate constructs does.
    pub open spec fn wf(&self) -> bool {
        payload_model_valid(self@)
    }

    /// Interprets a raw record's parameter string as the typed payload of
    /// its event type.
    pub fn parse(rawevt: &RawSensorEvent) -> (r: Result<
        SensorEventData,
        SensorReadoutParserError,
    >)
        ensures
            match r {
                Ok(p) => spec_decode_payload(rawevt@) == Ok::<
                    SensorEventDataModel,
                    ErrorModel,
                >(p@) && p.wf(),
                Err(e) => spec_decode_payload(rawevt@) == Err::<
                    SensorEventDataModel,
                    ErrorModel,
                >(e@),
            },
    {
        match rawevt.event_type {
            EventType::FileMetadata => {
                let s = rawevt.parameter_str.as_str();
                let n = s.unicode_len();
                let i1 = match find_char(s, ';', 0) {
                    Some(i) => i,
                    None => {
                        return Err(
                            SensorReadoutParserError::FileFormatError(
                                String::from_str("Invalid number of parameters"),
                            ),
                        );
                    },
                };
                proof {
                    lemma_find_from_bounds(s@, ';', 0);
                }
                let i2 = match find_char(s, ';', i1 + 1) {
                    Some(i) => i,
                    None => {
                        return Err(
                            SensorReadoutParserError::FileFormatError(
                                String::from_str("Invalid number of parameters"),
                            ),
                        );
                    },
                };
                proof {
                    lemma_find_from_bounds(s@, ';', i1 as int + 1);
                }
                let p0 = s.substring_char(0, i1);
                let p1 = s.substring_char(i1 + 1, i2);
                let p2 = s.substring_char(i2 + 1, n);
                let date = match UtcDateTime::from_rfc3339(p0) {
                    Some(d) => d,
                    None => {
                        return Err(
                            SensorReadoutParserError::FileFormatError(
                                String::from_str("Failed to parse file timestamp"),
                            ),
                        );
                    },
                };
                Ok(
                    SensorEventData::FileMetadata {
                        date: date,
                        person: String::from_str(p1),
                        comment: String::from_str(p2),
                    },
                )
            },
            _ => Err(SensorReadoutParserError::UnsupportedEventType(rawevt.event_type)),
        }
    }

    /// Renders the typed payload back as a parameter string, the date in
    /// full offset-qualified RFC 3339 form.
    pub fn serialize_to_string(&self) -> (r: String)
        ensures
            r@ == spec_encode_payload(self@),
    {
        match self {
            SensorEventData::FileMetadata { date, person, comment } => {
                let mut out = date.to_rfc3339();
                out.append(";");
                out.append(person.as_str());
                out.append(";");
                out.append(comment.as_str());
                proof {
                    reveal_strlit(";");
                    assert(";"@ =~= seq![';']);
                }
                out
            },
        }
    }
}

/// A raw record promoted to its typed form: the timestamp carried over, the
/// parameter string interpreted.
#[derive(Debug, Clone)]
pub struct SensorEvent {
    pub timestamp: Timestamp,
    pub data: SensorEventData,
}

/// The mathematical shape of a typed event.
pub struct SensorEventModel {
    pub timestamp: u64,
    pub data: SensorEventDataModel,
}

impl View for SensorEvent {
    type V = SensorEventModel;

    open spec fn view(&self) -> SensorEventModel {
        SensorEventModel { timestamp: self.timestamp, data: self.data@ }
    }
}

impl SensorEvent {
    /// Promotes a raw record to a typed event: the timestamp verbatim, the
    /// payload through the typed codec.
    pub fn parse(rawevt: &RawSensorEvent) -> (r: Result<SensorEvent, SensorReadoutParserError>)
        ensures
            match r {
                Ok(evt) => evt@.timestamp == rawevt@.timestamp && spec_decode_payload(rawevt@)
                    == Ok::<SensorEventDataModel, ErrorModel>(evt@.data) && evt.data.wf(),
                Err(e) => spec_decode_payload(rawevt@) == Err::<
                    SensorEventDataModel,
                    ErrorModel,
                >(e@),
            },
    {
        match SensorEventData::parse(rawevt) {
            Ok(d) => Ok(SensorEvent { timestamp: rawevt.timestamp, data: d }),
            Err(e) => Err(e),
        }
    }
}

/// Law: decoding an encoded file-metadata payload gives the payload back,
/// for any payload whose person field holds no `;`.
pub proof fn lemma_payload_round_trip(ts: u64, p: SensorEventDataModel)
    requires
        payload_model_valid(p),
        p matches SensorEventDataModel::FileMetadata { person, .. } ==> forall|i: int|
            0 <= i < person.len() ==> person[i] != ';',
    ensures
        spec_decode_payload(
            RawEventModel {
                timestamp: ts,
                event_type: EventType::FileMetadata,
                parameter_str: spec_encode_payload(p),
            },
        ) == Ok::<SensorEventDataModel, ErrorModel>(p),
{
    match p {
        SensorEventDataModel::FileMetadata { date, person, comment } => {
            let s = spec_encode_payload(p);
            let n1 = date.len() as int;
            let n2 = n1 + 1 + person.len();
            assert(s.len() == n2 + 1 + comment.len());
            assert forall|j: int| 0 <= j < n1 implies s[j] != ';' by {
                assert(s[j] == date[j]);
            }
            assert(s[n1] == ';');
            lemma_find_from_exact(s, ';', 0, n1);
            assert forall|j: int| n1 + 1 <= j < n2 implies s[j] != ';' by {
                assert(s[j] == person[j - (n1 + 1)]);
            }
            assert(s[n2] == ';');
            lemma_find_from_exact(s, ';', n1 + 1, n2);
            assert(s.subrange(0, n1) =~= date);
            assert(s.subrange(n1 + 1, n2) =~= person);
            assert(s.subrange(n2 + 1, s.len() as int) =~= comment);
        },
    }
}

} // verus!
