//! What the HTTP handlers decide: request validation and the texts of
//! their answers.
use vstd::prelude::*;
use crate::error::{DateRangeError, spec_date_range_message};
use crate::timestamp::{MIN_TIMESTAMP_SECS, MAX_TIMESTAMP_SECS, utc_micros_from_timestamp};
use crate::wire::{self, GetSensorSimpleMeasuresRange, GetSensorSimpleMeasuresIntervalsRange};

verus! {

pub const TEMPERATURES_ADDED_MESSAGE: &'static str = "Added sensor temperature measurements.";

pub const HUMIDITIES_ADDED_MESSAGE: &'static str = "Added sensor humidity measurements.";

/// The answer of the index page.
pub fn index_greeting(app_name: &str) -> (r: String)
    ensures
        r@ == "Hello "@ + app_name@ + "!"@,
{
    let mut r = String::from_str("Hello ");
    r.append(app_name);
    r.append("!");
    r
}

/// The answer to a sensor that was added.
pub fn sensor_added_message(reference: &str, name: &str) -> (r: String)
    ensures
        r@ == "Added sensor with reference='"@ + reference@ + "' and name='"@ + name@ + "'."@,
{
    let mut r = String::from_str("Added sensor with reference='");
    r.append(reference);
    r.append("' and name='");
    r.append(name);
    r.append("'.");
    r
}

/// The SQL `LIKE` pattern for names that contain `name_part`.
pub fn sensor_name_filter(name_part: &str) -> (r: String)
    ensures
        r@ == "%"@ + name_part@ + "%"@,
{
    let mut r = String::from_str("%");
    r.append(name_part);
    r.append("%");
    r
}

/// The instant, in microseconds, of a second given in a request, if
/// `chrono` represents it.
pub open spec fn spec_request_instant(secs: i64) -> Option<i64> {
    if MIN_TIMESTAMP_SECS <= secs <= MAX_TIMESTAMP_SECS {
        Some((secs * 1_000_000) as i64)
    } else {
        None
    }
}

/// A request for the readings of `sensor_reference` between two seconds
/// since the Unix epoch; fails when either second is out of range.
pub fn temperature_range_request(sensor_reference: String, start: i64, end: i64) -> (r: Result<
    GetSensorSimpleMeasuresRange,
    DateRangeError,
>)
    ensures
        match (spec_request_instant(start), spec_request_instant(end)) {
            (Some(a), Some(b)) => r matches Ok(q) && q.sensor_reference@ == sensor_reference@
                && q.start_datetime == a && q.end_datetime == b,
            (s, e) => r matches Err(err) && err.spec_message() == spec_date_range_message(s, e),
        },
{
    let start_datetime = utc_micros_from_timestamp(start);
    let end_datetime = utc_micros_from_timestamp(end);
    match (start_datetime, end_datetime) {
        (Some(a), Some(b)) => Ok(
            GetSensorSimpleMeasuresRange { sensor_reference, start_datetime: a, end_datetime: b },
        ),
        _ => Err(DateRangeError::from_range(start_datetime, end_datetime)),
    }
}

/// Why a request for interval averages is refused.
pub enum IntervalRequestError {
    /// The measurement kind is not a sensor type name; the message says so.
    UnknownMeasurementKind(String),
    /// A date is out of range.
    DateRange(DateRangeError),
}

/// A request for the averages of one kind of reading of
/// `sensor_reference` over intervals of `interval` milliseconds between
/// two seconds since the Unix epoch. An interval of `i64::MIN`
/// milliseconds is no duration `chrono` represents; it is admitted only
/// where the measurement kind is refused first.
pub fn interval_range_request(
    measurement_kind: &str,
    sensor_reference: String,
    start: i64,
    end: i64,
    interval: i64,
) -> (r: Result<(wire::SensorType, GetSensorSimpleMeasuresIntervalsRange), IntervalRequestError>)
    requires
        interval == i64::MIN ==> forall|t: wire::SensorType|
            wire::spec_sensor_type_name(t) != measurement_kind@,
    ensures
        (forall|t: wire::SensorType| wire::spec_sensor_type_name(t) != measurement_kind@) ==> (
        r matches Err(IntervalRequestError::UnknownMeasurementKind(m)) && m@
            == "Measurement kind does not exist: "@ + measurement_kind@),
        (exists|t: wire::SensorType| wire::spec_sensor_type_name(t) == measurement_kind@) ==> match (
            spec_request_instant(start),
            spec_request_instant(end),
        ) {
            (Some(a), Some(b)) => r matches Ok((t, q)) && wire::spec_sensor_type_name(t)
                == measurement_kind@ && q.sensor_reference@ == sensor_reference@ && q.start_datetime
                == a && q.end_datetime == b && q.interval == interval,
            (s, e) => r matches Err(IntervalRequestError::DateRange(err)) && err.spec_message()
                == spec_date_range_message(s, e),
        },
{
    let kind = match wire::SensorType::from_name(measurement_kind) {
        Some(k) => k,
        None => {
            let mut m = String::from_str("Measurement kind does not exist: ");
            m.append(measurement_kind);
            return Err(IntervalRequestError::UnknownMeasurementKind(m));
        },
    };
    let start_datetime = utc_micros_from_timestamp(start);
    let end_datetime = utc_micros_from_timestamp(end);
    match (start_datetime, end_datetime) {
        (Some(a), Some(b)) => Ok(
            (
                kind,
                GetSensorSimpleMeasuresIntervalsRange {
                    sensor_reference,
                    start_datetime: a,
                    end_datetime: b,
                    interval,
                },
            ),
        ),
        _ => Err(
            IntervalRequestError::DateRange(DateRangeError::from_range(start_datetime, end_datetime)),
        ),
    }
}

} // verus!
