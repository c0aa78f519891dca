//! Conversions between the messages of the API and the stored records.
use vstd::prelude::*;
use crate::distinct::distinct;
use crate::repository::{self, DBSimpleMeasurement};
use crate::wire;

verus! {

/// Conversion from `T`; `converts(value, result)` says which results a
/// value converts to.
pub trait ModelFrom<T>: Sized {
    spec fn converts(value: T, result: Self) -> bool;

    fn model_from(value: T) -> (r: Self)
        ensures
            Self::converts(value, r),
    ;
}

/// Conversion into `T`, the counterpart of `ModelFrom`.
pub trait ModelInto<T>: Sized {
    spec fn converts_into(self, result: T) -> bool;

    fn model_into(self) -> (r: T)
        ensures
            self.converts_into(r),
    ;
}

impl<T, U: ModelFrom<T>> ModelInto<U> for T {
    open spec fn converts_into(self, result: U) -> bool {
        U::converts(self, result)
    }

    fn model_into(self) -> (r: U) {
        U::model_from(self)
    }
}

/// Every value converts to itself.
impl<T> ModelFrom<T> for T {
    open spec fn converts(value: T, result: Self) -> bool {
        result == value
    }

    fn model_from(value: T) -> (r: Self) {
        value
    }
}

/// The stored sensor type of an API sensor type.
pub open spec fn spec_repo_type(t: wire::SensorType) -> repository::SensorType {
    match t {
        wire::SensorType::Temperature => repository::SensorType::Temperature,
        wire::SensorType::Humidity => repository::SensorType::Humidity,
        wire::SensorType::Airpressure => repository::SensorType::Airpressure,
        wire::SensorType::LightIntensity => repository::SensorType::LightIntensity,
        wire::SensorType::BatteryVoltage => repository::SensorType::BatteryVoltage,
        wire::SensorType::ChipTemperature => repository::SensorType::ChipTemperature,
        wire::SensorType::Co2 => repository::SensorType::Co2,
    }
}

/// The API sensor type of a stored sensor type.
pub open spec fn spec_api_type(t: repository::SensorType) -> wire::SensorType {
    match t {
        repository::SensorType::Temperature => wire::SensorType::Temperature,
        repository::SensorType::Humidity => wire::SensorType::Humidity,
        repository::SensorType::Airpressure => wire::SensorType::Airpressure,
        repository::SensorType::LightIntensity => wire::SensorType::LightIntensity,
        repository::SensorType::BatteryVoltage => wire::SensorType::BatteryVoltage,
        repository::SensorType::ChipTemperature => wire::SensorType::ChipTemperature,
        repository::SensorType::Co2 => wire::SensorType::Co2,
    }
}

impl<'a> ModelFrom<&'a wire::SensorType> for repository::SensorType {
    open spec fn converts(value: &'a wire::SensorType, result: Self) -> bool {
        result == spec_repo_type(*value)
    }

    fn model_from(value: &'a wire::SensorType) -> (r: Self) {
        match value {
            wire::SensorType::Temperature => repository::SensorType::Temperature,
            wire::SensorType::Humidity => repository::SensorType::Humidity,
            wire::SensorType::Airpressure => repository::SensorType::Airpressure,
            wire::SensorType::LightIntensity => repository::SensorType::LightIntensity,
            wire::SensorType::BatteryVoltage => repository::SensorType::BatteryVoltage,
            wire::SensorType::ChipTemperature => repository::SensorType::ChipTemperature,
            wire::SensorType::Co2 => repository::SensorType::Co2,
        }
    }
}

impl<'a> ModelFrom<&'a repository::SensorType> for wire::SensorType {
    open spec fn converts(value: &'a repository::SensorType, result: Self) -> bool {
        result == spec_api_type(*value)
    }

    fn model_from(value: &'a repository::SensorType) -> (r: Self) {
        match value {
            repository::SensorType::Temperature => wire::SensorType::Temperature,
            repository::SensorType::Humidity => wire::SensorType::Humidity,
            repository::SensorType::Airpressure => wire::SensorType::Airpressure,
            repository::SensorType::LightIntensity => wire::SensorType::LightIntensity,
            repository::SensorType::BatteryVoltage => wire::SensorType::BatteryVoltage,
            repository::SensorType::ChipTemperature => wire::SensorType::ChipTemperature,
            repository::SensorType::Co2 => wire::SensorType::Co2,
        }
    }
}

/// Converting a sensor type to the stored one and back gives it back, in
/// both directions.
pub proof fn law_sensor_type_conversion_round_trip(a: wire::SensorType, s: repository::SensorType)
    ensures
        spec_api_type(spec_repo_type(a)) == a,
        spec_repo_type(spec_api_type(s)) == s,
{
}

impl<'a> ModelFrom<&'a wire::Sensor> for repository::Sensor {
    open spec fn converts(value: &'a wire::Sensor, result: Self) -> bool {
        &&& result.sensor_id == 0
        &&& result.sensor_reference@ == value.reference@
        &&& result.sensor_name@ == value.name@
        &&& result.sensor_types@ == value.sensor_types@.map_values(|t: wire::SensorType| spec_repo_type(t))
    }

    fn model_from(value: &'a wire::Sensor) -> (r: Self) {
        let mut types: Vec<repository::SensorType> = Vec::new();
        let mut i: usize = 0;
        while i < value.sensor_types.len()
            invariant
                i <= value.sensor_types@.len(),
                types@ == value.sensor_types@.take(i as int).map_values(
                    |t: wire::SensorType| spec_repo_type(t),
                ),
            decreases value.sensor_types@.len() - i,
        {
            let t: repository::SensorType = repository::SensorType::model_from(&value.sensor_types[i]);
            types.push(t);
            proof {
                assert(value.sensor_types@.take(i + 1).map_values(
                    |t: wire::SensorType| spec_repo_type(t),
                ) =~= value.sensor_types@.take(i as int).map_values(
                    |t: wire::SensorType| spec_repo_type(t),
                ).push(spec_repo_type(value.sensor_types@[i as int])));
            }
            i = i + 1;
        }
        proof {
            assert(value.sensor_types@.take(value.sensor_types@.len() as int)
                =~= value.sensor_types@);
        }
        repository::Sensor::new(value.reference.as_str(), value.name.as_str(), types)
    }
}

/// Whether two sensor types are the same.
fn same_api_type(a: wire::SensorType, b: wire::SensorType) -> (s: bool)
    ensures
        s == (a == b),
{
    a == b
}

impl<'a> ModelFrom<&'a repository::Sensor> for wire::Sensor {
    open spec fn converts(value: &'a repository::Sensor, result: Self) -> bool {
        &&& result.reference@ == value.sensor_reference@
        &&& result.name@ == value.sensor_name@
        &&& result.sensor_types@.no_duplicates()
        &&& result.sensor_types@.to_set() == value.sensor_types@.map_values(
            |t: repository::SensorType| spec_api_type(t),
        ).to_set()
    }

    fn model_from(value: &'a repository::Sensor) -> (r: Self) {
        let mut types: Vec<wire::SensorType> = Vec::new();
        let mut i: usize = 0;
        while i < value.sensor_types.len()
            invariant
                i <= value.sensor_types@.len(),
                types@ == value.sensor_types@.take(i as int).map_values(
                    |t: repository::SensorType| spec_api_type(t),
                ),
            decreases value.sensor_types@.len() - i,
        {
            let t: wire::SensorType = wire::SensorType::model_from(&value.sensor_types[i]);
            types.push(t);
            proof {
                assert(value.sensor_types@.take(i + 1).map_values(
                    |t: repository::SensorType| spec_api_type(t),
                ) =~= value.sensor_types@.take(i as int).map_values(
                    |t: repository::SensorType| spec_api_type(t),
                ).push(spec_api_type(value.sensor_types@[i as int])));
            }
            i = i + 1;
        }
        proof {
            assert(value.sensor_types@.take(value.sensor_types@.len() as int)
                =~= value.sensor_types@);
        }
        wire::Sensor {
            reference: value.sensor_reference.clone(),
            name: value.sensor_name.clone(),
            sensor_types: distinct(
                &types,
                same_api_type,
            ),
        }
    }
}

/// Storing an API sensor and converting the record back keeps its
/// reference, its name and its set of types.
pub proof fn law_sensor_conversion_round_trip(s: wire::Sensor, stored: repository::Sensor, back: wire::Sensor)
    requires
        <repository::Sensor as ModelFrom<&wire::Sensor>>::converts(&s, stored),
        <wire::Sensor as ModelFrom<&repository::Sensor>>::converts(&stored, back),
    ensures
        back.reference@ == s.reference@,
        back.name@ == s.name@,
        back.sensor_types@.to_set() == s.sensor_types@.to_set(),
{
    let m1 = s.sensor_types@.map_values(|t: wire::SensorType| spec_repo_type(t));
    let m2 = m1.map_values(|t: repository::SensorType| spec_api_type(t));
    assert(m2 =~= s.sensor_types@);
}

impl<'a, T: DBSimpleMeasurement> ModelFrom<&'a wire::SensorSimpleMeasurements> for (String, Vec<T>) {
    open spec fn converts(value: &'a wire::SensorSimpleMeasurements, result: Self) -> bool {
        &&& result.0@ == value.sensor_reference@
        &&& result.1@.len() == value.measurements@.len()
        &&& forall|i: int|
            0 <= i < value.measurements@.len() ==> {
                &&& (#[trigger] result.1@[i]).spec_measurement()
                    == value.measurements@[i].measurement
                &&& result.1@[i].spec_measure_time() == value.measurements@[i].measure_time
            }
    }

    fn model_from(value: &'a wire::SensorSimpleMeasurements) -> (r: Self) {
        let mut items: Vec<T> = Vec::new();
        let mut i: usize = 0;
        while i < value.measurements.len()
            invariant
                i <= value.measurements@.len(),
                items@.len() == i,
                forall|k: int|
                    0 <= k < i ==> {
                        &&& (#[trigger] items@[k]).spec_measurement()
                            == value.measurements@[k].measurement
                        &&& items@[k].spec_measure_time() == value.measurements@[k].measure_time
                    },
            decreases value.measurements@.len() - i,
        {
            let m = &value.measurements[i];
            items.push(T::new(m.measurement, m.measure_time));
            i = i + 1;
        }
        (value.sensor_reference.clone(), items)
    }
}

impl<'a, T: DBSimpleMeasurement> ModelFrom<&'a wire::SensorSingleSimpleMeasure> for (String, T) {
    open spec fn converts(value: &'a wire::SensorSingleSimpleMeasure, result: Self) -> bool {
        &&& result.0@ == value.sensor_reference@
        &&& result.1.spec_measurement() == value.measure.measurement
        &&& result.1.spec_measure_time() == value.measure.measure_time
    }

    fn model_from(value: &'a wire::SensorSingleSimpleMeasure) -> (r: Self) {
        let measurement: T = T::model_from(&value.measure);
        (value.sensor_reference.clone(), measurement)
    }
}

impl<T: DBSimpleMeasurement> ModelFrom<T> for wire::SimpleMeasurement {
    open spec fn converts(value: T, result: Self) -> bool {
        &&& result.measurement == value.spec_measurement()
        &&& result.measure_time == value.spec_measure_time()
    }

    fn model_from(value: T) -> (r: Self) {
        wire::SimpleMeasurement {
            measurement: *value.measurement(),
            measure_time: value.measure_time(),
        }
    }
}

impl<'a, T: DBSimpleMeasurement> ModelFrom<&'a wire::SimpleMeasurement> for T {
    open spec fn converts(value: &'a wire::SimpleMeasurement, result: Self) -> bool {
        &&& result.spec_measurement() == value.measurement
        &&& result.spec_measure_time() == value.measure_time
    }

    fn model_from(value: &'a wire::SimpleMeasurement) -> (r: Self) {
        T::new(value.measurement, value.measure_time)
    }
}

impl<T: DBSimpleMeasurement> ModelFrom<(String, Vec<T>)> for wire::SensorSimpleMeasurements {
    open spec fn converts(value: (String, Vec<T>), result: Self) -> bool {
        &&& result.sensor_reference@ == value.0@
        &&& result.measurements@.len() == value.1@.len()
        &&& forall|i: int|
            0 <= i < value.1@.len() ==> {
                &&& (#[trigger] result.measurements@[i]).measurement
                    == value.1@[i].spec_measurement()
                &&& result.measurements@[i].measure_time == value.1@[i].spec_measure_time()
            }
    }

    fn model_from(value: (String, Vec<T>)) -> (r: Self) {
        let (sensor_ref, items) = value;
        let mut measurements: Vec<wire::SimpleMeasurement> = Vec::new();
        let mut i: usize = 0;
        while i < items.len()
            invariant
                i <= items@.len(),
                measurements@.len() == i,
                forall|k: int|
                    0 <= k < i ==> {
                        &&& (#[trigger] measurements@[k]).measurement
                            == items@[k].spec_measurement()
                        &&& measurements@[k].measure_time == items@[k].spec_measure_time()
                    },
            decreases items@.len() - i,
        {
            measurements.push(wire::SimpleMeasurement {
                measurement: *items[i].measurement(),
                measure_time: items[i].measure_time(),
            });
            i = i + 1;
        }
        wire::SensorSimpleMeasurements { sensor_reference: sensor_ref, measurements }
    }
}

impl<'a> ModelFrom<&'a wire::Co2Measurement> for repository::Co2 {
    open spec fn converts(value: &'a wire::Co2Measurement, result: Self) -> bool {
        &&& result.co2_id == -1
        &&& result.sensor_id == -1
        &&& result.co2_ppm == value.co2_ppm
        &&& result.res0 == value.res0
        &&& result.adc_val_12bit == value.adc_val
        &&& result.measure_time == value.measure_time
    }

    fn model_from(value: &'a wire::Co2Measurement) -> (r: Self) {
        repository::Co2 {
            co2_id: -1,
            sensor_id: -1,
            co2_ppm: value.co2_ppm,
            res0: value.res0,
            adc_val_12bit: value.adc_val,
            measure_time: value.measure_time,
        }
    }
}

impl ModelFrom<repository::Co2> for wire::Co2Measurement {
    open spec fn converts(value: repository::Co2, result: Self) -> bool {
        &&& result.co2_ppm == value.co2_ppm
        &&& result.res0 == value.res0
        &&& result.adc_val == value.adc_val_12bit
        &&& result.measure_time == value.measure_time
    }

    fn model_from(value: repository::Co2) -> (r: Self) {
        wire::Co2Measurement {
            co2_ppm: value.co2_ppm,
            res0: value.res0,
            adc_val: value.adc_val_12bit,
            measure_time: value.measure_time,
        }
    }
}

impl<'a> ModelFrom<&'a wire::SensorSingleCo2Measure> for (String, repository::Co2) {
    open spec fn converts(value: &'a wire::SensorSingleCo2Measure, result: Self) -> bool {
        &&& result.0@ == value.sensor_reference@
        &&& <repository::Co2 as ModelFrom<&wire::Co2Measurement>>::converts(&value.co2_measure, result.1)
    }

    fn model_from(value: &'a wire::SensorSingleCo2Measure) -> (r: Self) {
        let co2: repository::Co2 = repository::Co2::model_from(&value.co2_measure);
        (value.sensor_reference.clone(), co2)
    }
}

impl<'a> ModelFrom<&'a wire::Error> for repository::SensorError {
    open spec fn converts(value: &'a wire::Error, result: Self) -> bool {
        &&& result.sensor_id == -1
        &&& result.sensor_error_id == -1
        &&& result.error_code == value.error_code.code
        &&& result.error_text@ == value.error_text@
        &&& result.error_time == value.error_time
    }

    fn model_from(value: &'a wire::Error) -> (r: Self) {
        repository::SensorError {
            sensor_id: -1,
            sensor_error_id: -1,
            error_code: value.error_code.get_code(),
            error_text: value.error_text.clone(),
            error_time: value.error_time,
        }
    }
}

impl ModelFrom<repository::SensorError> for wire::Error {
    open spec fn converts(value: repository::SensorError, result: Self) -> bool {
        &&& result.error_code.code == value.error_code
        &&& result.error_text@ == value.error_text@
        &&& result.error_time == value.error_time
    }

    fn model_from(value: repository::SensorError) -> (r: Self) {
        wire::Error {
            error_code: wire::ErrorCode::from_code(value.error_code),
            error_text: value.error_text,
            error_time: value.error_time,
        }
    }
}

impl<'a> ModelFrom<&'a wire::SensorError> for (String, repository::SensorError) {
    open spec fn converts(value: &'a wire::SensorError, result: Self) -> bool {
        &&& result.0@ == value.sensor_reference@
        &&& <repository::SensorError as ModelFrom<&wire::Error>>::converts(&value.error, result.1)
    }

    fn model_from(value: &'a wire::SensorError) -> (r: Self) {
        let sensor_error: repository::SensorError = repository::SensorError::model_from(&value.error);
        (value.sensor_reference.clone(), sensor_error)
    }
}

/// Storing a reading and reading it back as a message keeps its value and
/// its time, for every kind of stored reading.
pub proof fn law_measurement_round_trip<T: DBSimpleMeasurement>(
    m: wire::SimpleMeasurement,
    stored: T,
    back: wire::SimpleMeasurement,
)
    requires
        <T as ModelFrom<&wire::SimpleMeasurement>>::converts(&m, stored),
        <wire::SimpleMeasurement as ModelFrom<T>>::converts(stored, back),
    ensures
        back.measurement == m.measurement,
        back.measure_time == m.measure_time,
{
}

/// Storing a batch of readings and reading it back keeps the sensor and
/// every reading, in order.
pub proof fn law_measurements_round_trip<T: DBSimpleMeasurement>(
    ms: wire::SensorSimpleMeasurements,
    stored: (String, Vec<T>),
    back: wire::SensorSimpleMeasurements,
)
    requires
        <(String, Vec<T>) as ModelFrom<&wire::SensorSimpleMeasurements>>::converts(&ms, stored),
        <wire::SensorSimpleMeasurements as ModelFrom<(String, Vec<T>)>>::converts(stored, back),
    ensures
        back.sensor_reference@ == ms.sensor_reference@,
        back.measurements@.len() == ms.measurements@.len(),
        forall|i: int|
            0 <= i < ms.measurements@.len() ==> (#[trigger] back.measurements@[i]).measurement
                == ms.measurements@[i].measurement && back.measurements@[i].measure_time
                == ms.measurements@[i].measure_time,
{
    assert forall|i: int| 0 <= i < ms.measurements@.len() implies (
    #[trigger] back.measurements@[i]).measurement == ms.measurements@[i].measurement
        && back.measurements@[i].measure_time == ms.measurements@[i].measure_time by {
        assert(stored.1@[i].spec_measurement() == ms.measurements@[i].measurement);
    }
}

/// Storing a CO2 reading and reading it back keeps all its values.
pub proof fn law_co2_round_trip(m: wire::Co2Measurement, stored: repository::Co2, back: wire::Co2Measurement)
    requires
        <repository::Co2 as ModelFrom<&wire::Co2Measurement>>::converts(&m, stored),
        <wire::Co2Measurement as ModelFrom<repository::Co2>>::converts(stored, back),
    ensures
        back.co2_ppm == m.co2_ppm,
        back.res0 == m.res0,
        back.adc_val == m.adc_val,
        back.measure_time == m.measure_time,
{
}

/// Storing an error report and reading it back keeps its code, text and
/// time.
pub proof fn law_error_round_trip(e: wire::Error, stored: repository::SensorError, back: wire::Error)
    requires
        <repository::SensorError as ModelFrom<&wire::Error>>::converts(&e, stored),
        <wire::Error as ModelFrom<repository::SensorError>>::converts(stored, back),
    ensures
        back.error_code == e.error_code,
        back.error_text@ == e.error_text@,
        back.error_time == e.error_time,
{
}

} // verus!
