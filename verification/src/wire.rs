//! The messages that sensors and clients exchange with the server over
//! HTTP and MQTT (sent as JSON), as plain values.
use vstd::prelude::*;
use crate::decimal::Decimal;
use crate::text::str_eq;

verus! {

/// A quantity a sensor measures.
#[derive(Debug, PartialEq, Eq, Structural, Clone, Copy, Hash, PartialOrd, Ord)]
pub enum SensorType {
    Temperature,
    Humidity,
    Airpressure,
    LightIntensity,
    BatteryVoltage,
    ChipTemperature,
    Co2,
}

/// The name of a sensor type in messages.
pub open spec fn spec_sensor_type_name(t: SensorType) -> Seq<char> {
    match t {
        SensorType::Temperature => "Temperature"@,
        SensorType::Humidity => "Humidity"@,
        SensorType::Airpressure => "Airpressure"@,
        SensorType::LightIntensity => "LightIntensity"@,
        SensorType::BatteryVoltage => "BatteryVoltage"@,
        SensorType::ChipTemperature => "ChipTemperature"@,
        SensorType::Co2 => "Co2"@,
    }
}

impl SensorType {
    /// Reads the name of a sensor type (`FromStr`); `None` for any other
    /// text.
    pub fn from_name(value: &str) -> (r: Option<SensorType>)
        ensures
            r matches Some(t) ==> spec_sensor_type_name(t) == value@,
            r is None ==> forall|t: SensorType| spec_sensor_type_name(t) != value@,
    {
        if str_eq(value, "Temperature") {
            Some(SensorType::Temperature)
        } else if str_eq(value, "Humidity") {
            Some(SensorType::Humidity)
        } else if str_eq(value, "Airpressure") {
            Some(SensorType::Airpressure)
        } else if str_eq(value, "LightIntensity") {
            Some(SensorType::LightIntensity)
        } else if str_eq(value, "BatteryVoltage") {
            Some(SensorType::BatteryVoltage)
        } else if str_eq(value, "ChipTemperature") {
            Some(SensorType::ChipTemperature)
        } else if str_eq(value, "Co2") {
            Some(SensorType::Co2)
        } else {
            proof {
                assert forall|t: SensorType| spec_sensor_type_name(t) != value@ by {
                    match t {
                        SensorType::Temperature => {},
                        SensorType::Humidity => {},
                        SensorType::Airpressure => {},
                        SensorType::LightIntensity => {},
                        SensorType::BatteryVoltage => {},
                        SensorType::ChipTemperature => {},
                        SensorType::Co2 => {},
                    }
                }
            }
            None
        }
    }
}

/// A sensor and the quantities it measures. The conversion from a stored
/// sensor lists each type once; the field itself is public and does not
/// enforce it.
pub struct Sensor {
    pub reference: String,
    pub name: String,
    pub sensor_types: Vec<SensorType>,
}

/// A reading at a point in time (microseconds since the Unix epoch, UTC).
pub struct SimpleMeasurement {
    pub measurement: Decimal,
    pub measure_time: i64,
}

/// Readings of one sensor.
pub struct SensorSimpleMeasurements {
    pub sensor_reference: String,
    pub measurements: Vec<SimpleMeasurement>,
}

/// One reading of one sensor.
pub struct SensorSingleSimpleMeasure {
    pub sensor_reference: String,
    pub measure: SimpleMeasurement,
}

/// A reading of a CO2 sensor.
pub struct Co2Measurement {
    pub co2_ppm: Decimal,
    pub res0: Decimal,
    pub adc_val: i32,
    pub measure_time: i64,
}

/// One CO2 reading of one sensor.
pub struct SensorSingleCo2Measure {
    pub sensor_reference: String,
    pub co2_measure: Co2Measurement,
}

/// The code of an error a sensor reports.
#[derive(Debug, PartialEq, Eq, Structural, Clone, Copy)]
pub struct ErrorCode {
    pub code: i32,
}

impl ErrorCode {
    /// The error code for the number `code` (`From<i32>`).
    pub fn from_code(code: i32) -> (r: Self)
        ensures
            r.code == code,
    {
        ErrorCode { code }
    }

    /// The number of the code.
    pub fn get_code(&self) -> (r: i32)
        ensures
            r == self.code,
    {
        self.code
    }
}

/// An error a sensor reports.
pub struct Error {
    pub error_code: ErrorCode,
    pub error_text: String,
    /// Microseconds since the Unix epoch (UTC).
    pub error_time: i64,
}

/// An error report of one sensor.
pub struct SensorError {
    pub sensor_reference: String,
    pub error: Error,
}

/// A request for the readings of a sensor in a time range (microseconds
/// since the Unix epoch, UTC).
pub struct GetSensorSimpleMeasuresRange {
    pub sensor_reference: String,
    pub start_datetime: i64,
    pub end_datetime: i64,
}

/// A request for the average readings of a sensor over consecutive
/// intervals (`interval` in milliseconds) of a time range.
pub struct GetSensorSimpleMeasuresIntervalsRange {
    pub sensor_reference: String,
    pub start_datetime: i64,
    pub end_datetime: i64,
    pub interval: i64,
}

} // verus!
