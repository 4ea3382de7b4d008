//! The raw line grammar: one record per line, three `;`-separated fields.
//!
//! A line reads `<timestamp>;<event code>;<parameter string>`, where only the
//! first two `;` separate: the parameter string is everything after the
//! second one, and may itself contain `;`. Decoding validates the generic
//! three-field shape, the two numeric fields and the event code's presence in
//! the registry, and strips trailing whitespace (the line terminator among
//! it) from the parameter string. Encoding writes the fields back with a
//! trailing line feed and no validation of the parameter string.

use vstd::prelude::*;

use crate::decimal::dec_str;
use crate::decimal::i64_str;
use crate::decimal::i64_to_string;
use crate::decimal::is_digit_char;
use crate::decimal::lemma_dec_str_ok;
use crate::decimal::lemma_i64_str_chars;
use crate::decimal::lemma_parse_i64_i64_str;
use crate::decimal::lemma_parse_u64_dec_str;
use crate::decimal::parse_i64;
use crate::decimal::parse_i64_spec;
use crate::decimal::parse_u64;
use crate::decimal::parse_u64_spec;
use crate::decimal::u64_to_string;
use crate::error::ErrorModel;
use crate::error::SensorReadoutParserError;
use crate::event_type::lemma_type_to_code_inverse;
use crate::event_type::spec_code_to_type;
use crate::event_type::spec_type_to_code;
use crate::event_type::EventType;
use crate::text::find_char;
use crate::text::find_from;
use crate::text::is_ws_char;
use crate::text::lemma_find_from_bounds;
use crate::text::lemma_find_from_exact;
use crate::text::lemma_trim_end_noop;
use crate::text::lemma_trim_end_push_ws;
use crate::text::trim_end;
use crate::text::trim_end_spec;
use crate::Timestamp;

verus! {

/// One decoded line: a timestamp, an event type, and the untyped parameter
/// string with its trailing whitespace stripped.
#[derive(Debug, Clone)]
pub struct RawSensorEvent {
    pub timestamp: Timestamp,
    pub event_type: EventType,
    pub parameter_str: String,
}

/// The mathematical shape of a raw record.
pub struct RawEventModel {
    pub timestamp: u64,
    pub event_type: EventType,
    pub parameter_str: Seq<char>,
}

impl View for RawSensorEvent {
    type V = RawEventModel;

    open spec fn view(&self) -> RawEventModel {
        RawEventModel {
            timestamp: self.timestamp,
            event_type: self.event_type,
            parameter_str: self.parameter_str@,
        }
    }
}

/// The message of a line with fewer than three fields.
pub open spec fn shape_error_msg() -> Seq<char> {
    "General line format <ts>;<evtId>;<params;...> not satisfied"@
}

/// The message of a timestamp field that is not unsigned 64-bit decimal.
pub open spec fn timestamp_error_msg() -> Seq<char> {
    "Timestamp could not be parsed"@
}

/// The message of an event-code field that is not signed 64-bit decimal.
pub open spec fn event_id_error_msg() -> Seq<char> {
    "EventId could not be parsed"@
}

/// The message of an event code missing from the registry; it cites the
/// offending code.
pub open spec fn unknown_event_msg(id: i64) -> Seq<char> {
    "Encountered unknown EventType: "@ + i64_str(id as int)
}

/// What decoding one line yields: the raw record, or the message of the
/// first validation that fails. The first two `;` of the line separate the
/// fields; the parameter field keeps any further `;` and loses its trailing
/// whitespace.
pub open spec fn spec_decode_line(line: Seq<char>) -> Result<RawEventModel, Seq<char>> {
    match find_from(line, ';', 0) {
        None => Err(shape_error_msg()),
        Some(i1) => match find_from(line, ';', i1 + 1) {
            None => Err(shape_error_msg()),
            Some(i2) => {
                let p0 = line.subrange(0, i1);
                let p1 = line.subrange(i1 + 1, i2);
                let p2 = line.subrange(i2 + 1, line.len() as int);
                match parse_u64_spec(p0) {
                    None => Err(timestamp_error_msg()),
                    Some(ts) => match parse_i64_spec(p1) {
                        None => Err(event_id_error_msg()),
                        Some(id) => match spec_code_to_type(id) {
                            None => Err(unknown_event_msg(id)),
                            Some(et) => Ok(
                                RawEventModel {
                                    timestamp: ts,
                                    event_type: et,
                                    parameter_str: trim_end_spec(p2),
                                },
                            ),
                        },
                    },
                }
            },
        },
    }
}

/// What encoding a raw record yields: the three fields separated by `;`,
/// terminated by a line feed, the parameter string verbatim.
pub open spec fn spec_encode_line(r: RawEventModel) -> Seq<char> {
    dec_str(r.timestamp as int) + seq![';'] + i64_str(spec_type_to_code(r.event_type) as int)
        + seq![';'] + r.parameter_str + seq!['\n']
}

/// Decodes one line of text into a raw record, validating only the generic
/// three-field shape, the two numeric fields, and the event code.
pub fn decode_line(line: &str) -> (r: Result<RawSensorEvent, SensorReadoutParserError>)
    ensures
        match r {
            Ok(evt) => spec_decode_line(line@) == Ok::<RawEventModel, Seq<char>>(evt@),
            Err(e) => e@ matches ErrorModel::Format(m) && spec_decode_line(line@) == Err::<
                RawEventModel,
                Seq<char>,
            >(m),
        },
{
    let n = line.unicode_len();
    let i1 = match find_char(line, ';', 0) {
        Some(i) => i,
        None => {
            return Err(
                SensorReadoutParserError::FileFormatError(
                    String::from_str("General line format <ts>;<evtId>;<params;...> not satisfied"),
                ),
            );
        },
    };
    proof {
        lemma_find_from_bounds(line@, ';', 0);
    }
    let i2 = match find_char(line, ';', i1 + 1) {
        Some(i) => i,
        None => {
            return Err(
                SensorReadoutParserError::FileFormatError(
                    String::from_str("General line format <ts>;<evtId>;<params;...> not satisfied"),
                ),
            );
        },
    };
    proof {
        lemma_find_from_bounds(line@, ';', i1 as int + 1);
    }
    let p0 = line.substring_char(0, i1);
    let p1 = line.substring_char(i1 + 1, i2);
    let p2 = line.substring_char(i2 + 1, n);
    let ts = match parse_u64(p0) {
        Some(t) => t,
        None => {
            return Err(
                SensorReadoutParserError::FileFormatError(
                    String::from_str("Timestamp could not be parsed"),
                ),
            );
        },
    };
    let id = match parse_i64(p1) {
        Some(v) => v,
        None => {
            return Err(
                SensorReadoutParserError::FileFormatError(
                    String::from_str("EventId could not be parsed"),
                ),
            );
        },
    };
    let et = match EventType::code_to_type(id) {
        Some(t) => t,
        None => {
            return Err(
                SensorReadoutParserError::FileFormatError(
                    String::from_str("Encountered unknown EventType: ").concat(
                        i64_to_string(id).as_str(),
                    ),
                ),
            );
        },
    };
    let param = trim_end(p2);
    Ok(
        RawSensorEvent {
            timestamp: ts,
            event_type: et,
            parameter_str: String::from_str(param),
        },
    )
}

/// Encodes a raw record as one line of text, `<timestamp>;<code>;<params>`
/// with a trailing line feed.
pub fn encode_line(evt: &RawSensorEvent) -> (r: String)
    ensures
        r@ == spec_encode_line(evt@),
{
    let mut s = u64_to_string(evt.timestamp);
    s.append(";");
    let code = i64_to_string(evt.event_type.type_to_code());
    s.append(code.as_str());
    s.append(";");
    s.append(evt.parameter_str.as_str());
    s.append("\n");
    proof {
        reveal_strlit(";");
        reveal_strlit("\n");
        assert(";"@ =~= seq![';']);
        assert("\n"@ =~= seq!['\n']);
    }
    s
}

/// Whether a raw record is syntactically valid, that is, re-reads exactly as
/// written: its parameter string must not end in whitespace, since decoding
/// strips trailing whitespace. (A parameter string holding a line feed still
/// re-reads as one string, but corrupts a stream that is later split into
/// lines; that limitation is documented, not defended against.)
pub open spec fn raw_event_valid(r: RawEventModel) -> bool {
    r.parameter_str.len() > 0 ==> !is_ws_char(r.parameter_str.last())
}

/// Law: decoding an encoded record gives the record back, for every
/// syntactically valid raw record.
pub proof fn lemma_line_round_trip(r: RawEventModel)
    requires
        raw_event_valid(r),
    ensures
        spec_decode_line(spec_encode_line(r)) == Ok::<RawEventModel, Seq<char>>(r),
{
    let ts = dec_str(r.timestamp as int);
    let code = i64_str(spec_type_to_code(r.event_type) as int);
    let line = spec_encode_line(r);
    let n1 = ts.len() as int;
    let n2 = n1 + 1 + code.len();
    lemma_dec_str_ok(r.timestamp as int);
    lemma_i64_str_chars(spec_type_to_code(r.event_type) as int);
    assert(line.len() == n2 + 1 + r.parameter_str.len() + 1);
    assert forall|j: int| 0 <= j < n1 implies line[j] != ';' by {
        assert(line[j] == ts[j]);
        assert(is_digit_char(ts[j]));
    }
    assert(line[n1] == ';');
    lemma_find_from_exact(line, ';', 0, n1);
    assert forall|j: int| n1 + 1 <= j < n2 implies line[j] != ';' by {
        assert(line[j] == code[j - (n1 + 1)]);
        assert(code[j - (n1 + 1)] == '-' || is_digit_char(code[j - (n1 + 1)]));
    }
    assert(line[n2] == ';');
    lemma_find_from_exact(line, ';', n1 + 1, n2);
    assert(line.subrange(0, n1) =~= ts);
    assert(line.subrange(n1 + 1, n2) =~= code);
    assert(line.subrange(n2 + 1, line.len() as int) =~= r.parameter_str + seq!['\n']);
    lemma_parse_u64_dec_str(r.timestamp);
    lemma_parse_i64_i64_str(spec_type_to_code(r.event_type));
    lemma_type_to_code_inverse(r.event_type);
    assert(r.parameter_str.push('\n') =~= r.parameter_str + seq!['\n']);
    lemma_trim_end_push_ws(r.parameter_str, '\n');
    lemma_trim_end_noop(r.parameter_str);
}

/// The encoding side of the pipeline: writes raw records back out as lines.
pub struct Serializer {}

/// What encoding a whole batch yields: each record's line, in order.
pub open spec fn spec_encode_all(evts: Seq<RawEventModel>) -> Seq<char>
    decreases evts.len(),
{
    if evts.len() == 0 {
        Seq::empty()
    } else {
        spec_encode_all(evts.drop_last()) + spec_encode_line(evts.last())
    }
}

impl Serializer {
    /// Encodes every record of the batch, in order, one line each.
    pub fn serialize(evts: &Vec<RawSensorEvent>) -> (r: String)
        ensures
            r@ == spec_encode_all(evts@.map_values(|e: RawSensorEvent| e@)),
    {
        let mut out = String::new();
        proof {
            assert(evts@.subrange(0, 0).map_values(|e: RawSensorEvent| e@) =~= Seq::<
                RawEventModel,
            >::empty());
        }
        let mut i: usize = 0;
        while i < evts.len()
            invariant
                i <= evts.len(),
                out@ == spec_encode_all(evts@.subrange(0, i as int).map_values(|e: RawSensorEvent| e@)),
            decreases evts.len() - i,
        {
            let line = encode_line(&evts[i]);
            out.append(line.as_str());
            proof {
                let m = evts@.subrange(0, i as int + 1).map_values(|e: RawSensorEvent| e@);
                assert(m.drop_last() =~= evts@.subrange(0, i as int).map_values(
                    |e: RawSensorEvent| e@,
                ));
                assert(m.last() == evts@[i as int]@);
            }
            i = i + 1;
        }
        proof {
            assert(evts@.subrange(0, evts@.len() as int) =~= evts@);
        }
        out
    }
}

} // verus!
