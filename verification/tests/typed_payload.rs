//! Tests of the typed payload codec and the end-to-end decode pipeline.

use sensor_readout_parser::AggregatingParser;
use sensor_readout_parser::EventType;
use sensor_readout_parser::RawSensorEvent;
use sensor_readout_parser::SensorEvent;
use sensor_readout_parser::SensorEventData;
use sensor_readout_parser::SensorReadoutParserError;
use sensor_readout_parser::UtcDateTime;

fn raw_metadata(param: &str) -> RawSensorEvent {
    RawSensorEvent {
        timestamp: 0,
        event_type: EventType::FileMetadata,
        parameter_str: String::from(param),
    }
}

#[test]
fn end_to_end_metadata_line_decodes_to_a_typed_event() {
    let evts = AggregatingParser::parse("1000;-2;2024-01-01T00:00:00Z;Alice;test run\n").unwrap();
    assert_eq!(evts.len(), 1);
    assert_eq!(evts[0].timestamp, 1000);
    assert_eq!(evts[0].event_type, EventType::FileMetadata);
    assert_eq!(evts[0].parameter_str, "2024-01-01T00:00:00Z;Alice;test run");
    let typed = SensorEvent::parse(&evts[0]).unwrap();
    assert_eq!(typed.timestamp, 1000);
    let SensorEventData::FileMetadata { date, person, comment } = typed.data;
    assert_eq!(date.to_rfc3339(), "2024-01-01T00:00:00+00:00");
    assert_eq!(person, "Alice");
    assert_eq!(comment, "test run");
}

#[test]
fn offsets_are_normalized_to_utc() {
    let SensorEventData::FileMetadata { date, .. } =
        SensorEventData::parse(&raw_metadata("2024-06-01T12:30:00+02:00;p;c")).unwrap();
    assert_eq!(date.to_rfc3339(), "2024-06-01T10:30:00+00:00");
}

#[test]
fn comment_keeps_embedded_separators() {
    let SensorEventData::FileMetadata { person, comment, .. } =
        SensorEventData::parse(&raw_metadata("2024-01-01T00:00:00Z;Bob;has;semis")).unwrap();
    assert_eq!(person, "Bob");
    assert_eq!(comment, "has;semis");
}

#[test]
fn payload_round_trip_preserves_the_payload() {
    let date = UtcDateTime::from_rfc3339("2024-01-01T05:00:00+01:00").unwrap();
    let data = SensorEventData::FileMetadata {
        date,
        person: String::from("Bob"),
        comment: String::from("ran fine"),
    };
    let encoded = data.serialize_to_string();
    assert_eq!(encoded, "2024-01-01T04:00:00+00:00;Bob;ran fine");
    let SensorEventData::FileMetadata { date, person, comment } =
        SensorEventData::parse(&raw_metadata(&encoded)).unwrap();
    assert_eq!(date.to_rfc3339(), "2024-01-01T04:00:00+00:00");
    assert_eq!(person, "Bob");
    assert_eq!(comment, "ran fine");
}

#[test]
fn fractional_seconds_survive_the_round_trip() {
    let date = UtcDateTime::from_rfc3339("2024-01-01T00:00:00.123Z").unwrap();
    let rendered = date.to_rfc3339();
    let again = UtcDateTime::from_rfc3339(&rendered).unwrap();
    assert_eq!(again.to_rfc3339(), rendered);
}

#[test]
fn too_few_payload_fields_are_a_format_error() {
    let r = SensorEventData::parse(&raw_metadata("2024-01-01T00:00:00Z;OnlyOne"));
    match r {
        Err(SensorReadoutParserError::FileFormatError(m)) => {
            assert_eq!(m, "Invalid number of parameters");
        },
        other => panic!("expected a format error, got {:?}", other),
    }
}

#[test]
fn unparseable_date_is_a_format_error() {
    let r = SensorEventData::parse(&raw_metadata("notadate;a;b"));
    match r {
        Err(SensorReadoutParserError::FileFormatError(m)) => {
            assert_eq!(m, "Failed to parse file timestamp");
        },
        other => panic!("expected a format error, got {:?}", other),
    }
}

#[test]
fn other_event_types_are_an_unsupported_error() {
    let raw = RawSensorEvent {
        timestamp: 5,
        event_type: EventType::Accelerometer,
        parameter_str: String::from("1;2;3"),
    };
    let r = SensorEvent::parse(&raw);
    assert!(matches!(
        r,
        Err(SensorReadoutParserError::UnsupportedEventType(EventType::Accelerometer))
    ));
}

#[test]
fn bad_text_gives_no_date() {
    assert!(UtcDateTime::from_rfc3339("not a date").is_none());
    assert!(UtcDateTime::from_rfc3339("").is_none());
    assert!(UtcDateTime::from_rfc3339("2024-01-01").is_none());
}
