//! The fixed, bidirectional registry of event-type codes.
//!
//! Every event kind the format knows is one variant of [`EventType`]; its
//! wire representation is a signed 64-bit code. The mapping is total and
//! injective from type to code, and partial from code to type: a code outside
//! the table is a format error at the call sites that resolve codes.

use vstd::prelude::*;

verus! {

/// The closed enumeration of event kinds of the log format.
#[derive(Clone, Copy, Debug, PartialEq, Eq, Structural)]
pub enum EventType {
    Accelerometer,
    Gravity,
    LinearAcceleration,
    Gyroscope,
    MagneticField,
    Pressure,
    Orientation,
    RotationMatrix,
    Wifi,
    BLE,
    RelativeHumidity,
    OrientationOld,
    RotationVector,
    Light,
    AmbientTemperature,
    HeartRate,
    GPS,
    WifiRTT,
    GameRotationVector,
    EddystoneUID,
    DecawaveUWB,
    StepDetector,
    HeadingChange,
    FutureShapeSensFloor,
    PedestrianActivity,
    GroundTruth,
    GroundTruthPath,
    FileMetadata,
    RecordingId,
}

/// The wire code of each event type.
pub open spec fn spec_type_to_code(t: EventType) -> i64 {
    match t {
        EventType::Accelerometer => 0,
        EventType::Gravity => 1,
        EventType::LinearAcceleration => 2,
        EventType::Gyroscope => 3,
        EventType::MagneticField => 4,
        EventType::Pressure => 5,
        EventType::Orientation => 6,
        EventType::RotationMatrix => 7,
        EventType::Wifi => 8,
        EventType::BLE => 9,
        EventType::RelativeHumidity => 10,
        EventType::OrientationOld => 11,
        EventType::RotationVector => 12,
        EventType::Light => 13,
        EventType::AmbientTemperature => 14,
        EventType::HeartRate => 15,
        EventType::GPS => 16,
        EventType::WifiRTT => 17,
        EventType::GameRotationVector => 18,
        EventType::EddystoneUID => 19,
        EventType::DecawaveUWB => 20,
        EventType::StepDetector => 21,
        EventType::HeadingChange => 22,
        EventType::FutureShapeSensFloor => 23,
        EventType::PedestrianActivity => 50,
        EventType::GroundTruth => 99,
        EventType::GroundTruthPath => -1i64,
        EventType::FileMetadata => -2i64,
        EventType::RecordingId => -3i64,
    }
}

/// The event type registered for a wire code, if any.
pub open spec fn spec_code_to_type(c: i64) -> Option<EventType> {
    if c == 0 {
        Some(EventType::Accelerometer)
    } else if c == 1 {
        Some(EventType::Gravity)
    } else if c == 2 {
        Some(EventType::LinearAcceleration)
    } else if c == 3 {
        Some(EventType::Gyroscope)
    } else if c == 4 {
        Some(EventType::MagneticField)
    } else if c == 5 {
        Some(EventType::Pressure)
    } else if c == 6 {
        Some(EventType::Orientation)
    } else if c == 7 {
        Some(EventType::RotationMatrix)
    } else if c == 8 {
        Some(EventType::Wifi)
    } else if c == 9 {
        Some(EventType::BLE)
    } else if c == 10 {
        Some(EventType::RelativeHumidity)
    } else if c == 11 {
        Some(EventType::OrientationOld)
    } else if c == 12 {
        Some(EventType::RotationVector)
    } else if c == 13 {
        Some(EventType::Light)
    } else if c == 14 {
        Some(EventType::AmbientTemperature)
    } else if c == 15 {
        Some(EventType::HeartRate)
    } else if c == 16 {
        Some(EventType::GPS)
    } else if c == 17 {
        Some(EventType::WifiRTT)
    } else if c == 18 {
        Some(EventType::GameRotationVector)
    } else if c == 19 {
        Some(EventType::EddystoneUID)
    } else if c == 20 {
        Some(EventType::DecawaveUWB)
    } else if c == 21 {
        Some(EventType::StepDetector)
    } else if c == 22 {
        Some(EventType::HeadingChange)
    } else if c == 23 {
        Some(EventType::FutureShapeSensFloor)
    } else if c == 50 {
        Some(EventType::PedestrianActivity)
    } else if c == 99 {
        Some(EventType::GroundTruth)
    } else if c == -1 {
        Some(EventType::GroundTruthPath)
    } else if c == -2 {
        Some(EventType::FileMetadata)
    } else if c == -3 {
        Some(EventType::RecordingId)
    } else {
        None
    }
}

/// Whether a signed 64-bit code stands in the registry's table.
pub open spec fn is_defined_code(c: i64) -> bool {
    (0 <= c <= 23) || c == 50 || c == 99 || c == -1 || c == -2 || c == -3
}

impl EventType {
    /// Resolves a wire code through the registry; `None` for a code outside
    /// the table.
    pub fn code_to_type(c: i64) -> (r: Option<EventType>)
        ensures
            r == spec_code_to_type(c),
    {
        if c == 0 {
            Some(EventType::Accelerometer)
        } else if c == 1 {
            Some(EventType::Gravity)
        } else if c == 2 {
            Some(EventType::LinearAcceleration)
        } else if c == 3 {
            Some(EventType::Gyroscope)
        } else if c == 4 {
            Some(EventType::MagneticField)
        } else if c == 5 {
            Some(EventType::Pressure)
        } else if c == 6 {
            Some(EventType::Orientation)
        } else if c == 7 {
            Some(EventType::RotationMatrix)
        } else if c == 8 {
            Some(EventType::Wifi)
        } else if c == 9 {
            Some(EventType::BLE)
        } else if c == 10 {
            Some(EventType::RelativeHumidity)
        } else if c == 11 {
            Some(EventType::OrientationOld)
        } else if c == 12 {
            Some(EventType::RotationVector)
        } else if c == 13 {
            Some(EventType::Light)
        } else if c == 14 {
            Some(EventType::AmbientTemperature)
        } else if c == 15 {
            Some(EventType::HeartRate)
        } else if c == 16 {
            Some(EventType::GPS)
        } else if c == 17 {
            Some(EventType::WifiRTT)
        } else if c == 18 {
            Some(EventType::GameRotationVector)
        } else if c == 19 {
            Some(EventType::EddystoneUID)
        } else if c == 20 {
            Some(EventType::DecawaveUWB)
        } else if c == 21 {
            Some(EventType::StepDetector)
        } else if c == 22 {
            Some(EventType::HeadingChange)
        } else if c == 23 {
            Some(EventType::FutureShapeSensFloor)
        } else if c == 50 {
            Some(EventType::PedestrianActivity)
        } else if c == 99 {
            Some(EventType::GroundTruth)
        } else if c == -1 {
            Some(EventType::GroundTruthPath)
        } else if c == -2 {
            Some(EventType::FileMetadata)
        } else if c == -3 {
            Some(EventType::RecordingId)
        } else {
            None
        }
    }

    /// The wire code of this event type.
    pub fn type_to_code(&self) -> (r: i64)
        ensures
            r == spec_type_to_code(*self),
    {
        match self {
            EventType::Accelerometer => 0,
            EventType::Gravity => 1,
            EventType::LinearAcceleration => 2,
            EventType::Gyroscope => 3,
            EventType::MagneticField => 4,
            EventType::Pressure => 5,
            EventType::Orientation => 6,
            EventType::RotationMatrix => 7,
            EventType::Wifi => 8,
            EventType::BLE => 9,
            EventType::RelativeHumidity => 10,
            EventType::OrientationOld => 11,
            EventType::RotationVector => 12,
            EventType::Light => 13,
            EventType::AmbientTemperature => 14,
            EventType::HeartRate => 15,
            EventType::GPS => 16,
            EventType::WifiRTT => 17,
            EventType::GameRotationVector => 18,
            EventType::EddystoneUID => 19,
            EventType::DecawaveUWB => 20,
            EventType::StepDetector => 21,
            EventType::HeadingChange => 22,
            EventType::FutureShapeSensFloor => 23,
            EventType::PedestrianActivity => 50,
            EventType::GroundTruth => 99,
            EventType::GroundTruthPath => -1,
            EventType::FileMetadata => -2,
            EventType::RecordingId => -3,
        }
    }
}

/// Law: resolving a code succeeds exactly on the codes of the table, and the
/// type it yields maps back to that code.
pub proof fn lemma_code_to_type_inverse(c: i64)
    ensures
        spec_code_to_type(c) is Some <==> is_defined_code(c),
        spec_code_to_type(c) matches Some(t) ==> spec_type_to_code(t) == c,
{
}

/// Law: every event type's code resolves back to that type, so the registry
/// is injective from type to code.
pub proof fn lemma_type_to_code_inverse(t: EventType)
    ensures
        spec_code_to_type(spec_type_to_code(t)) == Some(t),
{
}

} // verus!
