//! Tests of the raw line grammar: decoding, encoding, and their round trip.

use sensor_readout_parser::raw_event::decode_line;
use sensor_readout_parser::raw_event::encode_line;
use sensor_readout_parser::EventType;
use sensor_readout_parser::RawSensorEvent;
use sensor_readout_parser::SensorReadoutParserError;
use sensor_readout_parser::Serializer;

fn format_message(r: Result<RawSensorEvent, SensorReadoutParserError>) -> String {
    match r {
        Err(SensorReadoutParserError::FileFormatError(m)) => m,
        other => panic!("expected a format error, got {:?}", other),
    }
}

#[test]
fn decodes_a_plain_line() {
    let evt = decode_line("1000;5;hello world\n").unwrap();
    assert_eq!(evt.timestamp, 1000);
    assert_eq!(evt.event_type, EventType::Pressure);
    assert_eq!(evt.parameter_str, "hello world");
}

#[test]
fn decodes_without_trailing_newline() {
    let evt = decode_line("7;16;fix").unwrap();
    assert_eq!(evt.timestamp, 7);
    assert_eq!(evt.event_type, EventType::GPS);
    assert_eq!(evt.parameter_str, "fix");
}

#[test]
fn parameter_keeps_embedded_separators() {
    let evt = decode_line("7;5;a;b;c\n").unwrap();
    assert_eq!(evt.parameter_str, "a;b;c");
}

#[test]
fn parameter_may_be_empty() {
    let evt = decode_line("7;5;\n").unwrap();
    assert_eq!(evt.parameter_str, "");
}

#[test]
fn trailing_whitespace_is_trimmed() {
    let evt = decode_line("7;5;xy  \t\r\n").unwrap();
    assert_eq!(evt.parameter_str, "xy");
}

#[test]
fn unicode_whitespace_is_trimmed_leading_kept() {
    let evt = decode_line("7;5;\u{3000}x\u{3000}\u{2028}\n").unwrap();
    assert_eq!(evt.parameter_str, "\u{3000}x");
}

#[test]
fn negative_codes_resolve() {
    let evt = decode_line("1;-3;rec-id\n").unwrap();
    assert_eq!(evt.event_type, EventType::RecordingId);
}

#[test]
fn plus_signs_are_accepted_in_numeric_fields() {
    let evt = decode_line("+5;+1;p\n").unwrap();
    assert_eq!(evt.timestamp, 5);
    assert_eq!(evt.event_type, EventType::Gravity);
}

#[test]
fn largest_timestamp_is_accepted() {
    let evt = decode_line("18446744073709551615;0;p\n").unwrap();
    assert_eq!(evt.timestamp, u64::MAX);
}

#[test]
fn timestamp_overflow_is_a_format_error() {
    let m = format_message(decode_line("18446744073709551616;0;p\n"));
    assert_eq!(m, "Timestamp could not be parsed");
}

#[test]
fn negative_timestamp_is_a_format_error() {
    let m = format_message(decode_line("-5;0;p\n"));
    assert_eq!(m, "Timestamp could not be parsed");
}

#[test]
fn padded_timestamp_is_a_format_error() {
    let m = format_message(decode_line(" 5;0;p\n"));
    assert_eq!(m, "Timestamp could not be parsed");
}

#[test]
fn non_numeric_event_id_is_a_format_error() {
    let m = format_message(decode_line("5;x;p\n"));
    assert_eq!(m, "EventId could not be parsed");
}

#[test]
fn event_id_overflow_is_a_format_error() {
    let m = format_message(decode_line("5;9223372036854775808;p\n"));
    assert_eq!(m, "EventId could not be parsed");
}

#[test]
fn unknown_code_is_cited_in_the_message() {
    let m = format_message(decode_line("5;12345;x"));
    assert_eq!(m, "Encountered unknown EventType: 12345");
    assert!(m.contains("12345"));
}

#[test]
fn unknown_extreme_codes_are_cited_exactly() {
    let m = format_message(decode_line("5;9223372036854775807;p\n"));
    assert_eq!(m, "Encountered unknown EventType: 9223372036854775807");
    let m = format_message(decode_line("5;-9223372036854775808;p\n"));
    assert_eq!(m, "Encountered unknown EventType: -9223372036854775808");
}

#[test]
fn two_fields_are_a_shape_error() {
    let m = format_message(decode_line("5;0"));
    assert_eq!(m, "General line format <ts>;<evtId>;<params;...> not satisfied");
}

#[test]
fn one_field_and_empty_line_are_shape_errors() {
    let m = format_message(decode_line("5"));
    assert_eq!(m, "General line format <ts>;<evtId>;<params;...> not satisfied");
    let m = format_message(decode_line("\n"));
    assert_eq!(m, "General line format <ts>;<evtId>;<params;...> not satisfied");
}

#[test]
fn encode_line_has_the_exact_shape() {
    let evt = RawSensorEvent {
        timestamp: 42,
        event_type: EventType::FileMetadata,
        parameter_str: String::from("a;b c"),
    };
    assert_eq!(encode_line(&evt), "42;-2;a;b c\n");
}

#[test]
fn line_round_trip_preserves_the_record() {
    let evt = RawSensorEvent {
        timestamp: 9000,
        event_type: EventType::GPS,
        parameter_str: String::from("lat;lon;48.1;11.5"),
    };
    let back = decode_line(&encode_line(&evt)).unwrap();
    assert_eq!(back.timestamp, evt.timestamp);
    assert_eq!(back.event_type, evt.event_type);
    assert_eq!(back.parameter_str, evt.parameter_str);
}

#[test]
fn line_round_trip_with_empty_parameter() {
    let evt = RawSensorEvent {
        timestamp: 0,
        event_type: EventType::RecordingId,
        parameter_str: String::new(),
    };
    let back = decode_line(&encode_line(&evt)).unwrap();
    assert_eq!(back.timestamp, 0);
    assert_eq!(back.event_type, EventType::RecordingId);
    assert_eq!(back.parameter_str, "");
}

#[test]
fn serializer_writes_one_line_per_record() {
    let evts = vec![
        RawSensorEvent {
            timestamp: 42,
            event_type: EventType::GPS,
            parameter_str: String::from("a;b"),
        },
        RawSensorEvent {
            timestamp: 7,
            event_type: EventType::FileMetadata,
            parameter_str: String::from("m"),
        },
    ];
    assert_eq!(Serializer::serialize(&evts), "42;16;a;b\n7;-2;m\n");
}

#[test]
fn serializer_of_no_records_writes_nothing() {
    let evts: Vec<RawSensorEvent> = Vec::new();
    assert_eq!(Serializer::serialize(&evts), "");
}
