//! Tests of the registry, the scanner, and the fail-fast batch collector.

use sensor_readout_parser::AggregatingParser;
use sensor_readout_parser::EventType;
use sensor_readout_parser::SensorReadoutParserError;
use sensor_readout_parser::VisitingParser;

#[test]
fn every_defined_code_resolves_and_maps_back() {
    let codes: Vec<i64> = vec![
        0, 1, 2, 3, 4, 5, 6, 7, 8, 9, 10, 11, 12, 13, 14, 15, 16, 17, 18, 19, 20, 21, 22, 23, 50,
        99, -1, -2, -3,
    ];
    for c in codes {
        let t = EventType::code_to_type(c).unwrap();
        assert_eq!(t.type_to_code(), c);
    }
}

#[test]
fn codes_outside_the_table_do_not_resolve() {
    for c in [24i64, 49, 51, 98, 100, -4, 12345, i64::MIN, i64::MAX] {
        assert!(EventType::code_to_type(c).is_none());
    }
}

#[test]
fn specific_codes_resolve_to_their_types() {
    assert_eq!(EventType::code_to_type(0), Some(EventType::Accelerometer));
    assert_eq!(EventType::code_to_type(16), Some(EventType::GPS));
    assert_eq!(EventType::code_to_type(50), Some(EventType::PedestrianActivity));
    assert_eq!(EventType::code_to_type(99), Some(EventType::GroundTruth));
    assert_eq!(EventType::code_to_type(-2), Some(EventType::FileMetadata));
}

#[test]
fn scanner_yields_records_then_none() {
    let mut p = VisitingParser::new("1;0;x\n2;1;y");
    let first = p.next().unwrap().unwrap();
    assert_eq!(first.timestamp, 1);
    assert_eq!(first.event_type, EventType::Accelerometer);
    assert_eq!(first.parameter_str, "x");
    let second = p.next().unwrap().unwrap();
    assert_eq!(second.timestamp, 2);
    assert_eq!(second.event_type, EventType::Gravity);
    assert_eq!(second.parameter_str, "y");
    assert!(p.next().unwrap().is_none());
    assert!(p.next().unwrap().is_none());
}

#[test]
fn scanner_is_exhausted_after_an_error() {
    let mut p = VisitingParser::new("bad\n1;0;x\n");
    assert!(matches!(p.next(), Err(SensorReadoutParserError::FileFormatError(_))));
    assert!(p.next().unwrap().is_none());
}

#[test]
fn scanner_on_empty_input_yields_none() {
    let mut p = VisitingParser::new("");
    assert!(p.next().unwrap().is_none());
}

#[test]
fn empty_input_collects_to_an_empty_batch() {
    let evts = AggregatingParser::parse("").unwrap();
    assert_eq!(evts.len(), 0);
}

#[test]
fn batch_collects_records_in_read_order() {
    let evts = AggregatingParser::parse("1;0;a\n2;1;b\n3;2;c\n").unwrap();
    assert_eq!(evts.len(), 3);
    assert_eq!(evts[0].timestamp, 1);
    assert_eq!(evts[1].timestamp, 2);
    assert_eq!(evts[2].timestamp, 3);
    assert_eq!(evts[0].parameter_str, "a");
    assert_eq!(evts[2].event_type, EventType::LinearAcceleration);
}

#[test]
fn last_line_without_newline_is_collected() {
    let evts = AggregatingParser::parse("1;0;a\n2;1;b").unwrap();
    assert_eq!(evts.len(), 2);
    assert_eq!(evts[1].parameter_str, "b");
}

#[test]
fn batch_fails_fast_on_the_first_bad_line() {
    let r = AggregatingParser::parse("1;0;a\n2;1;b\n3;2;c\n5;0\n");
    match r {
        Err(SensorReadoutParserError::FileFormatError(m)) => {
            assert_eq!(m, "General line format <ts>;<evtId>;<params;...> not satisfied");
        },
        other => panic!("expected a format error, got {:?}", other),
    }
}

#[test]
fn malformed_two_field_line_alone_fails_the_batch() {
    let r = AggregatingParser::parse("5;0");
    assert!(matches!(r, Err(SensorReadoutParserError::FileFormatError(_))));
}

#[test]
fn unknown_code_fails_the_batch_citing_the_code() {
    let r = AggregatingParser::parse("5;12345;x");
    match r {
        Err(SensorReadoutParserError::FileFormatError(m)) => assert!(m.contains("12345")),
        other => panic!("expected a format error, got {:?}", other),
    }
}

#[test]
fn error_messages_surface_their_kind() {
    assert_eq!(SensorReadoutParserError::IoError.message(), "IoError during parsing");
    assert_eq!(
        SensorReadoutParserError::FileFormatError(String::from("x")).message(),
        "An error in the file's format has occured and could not be parsed: x"
    );
    assert_eq!(
        SensorReadoutParserError::UnsupportedEventType(EventType::Gravity).message(),
        "Unsupported event type: 1"
    );
}
