//! The server's own description of a sensor: a reference, a name and the
//! set of quantities it measures.
use vstd::prelude::*;
use crate::distinct::distinct;

verus! {

/// A quantity a sensor measures.
#[derive(Debug, PartialEq, Eq, Structural, Clone, Copy, Hash, PartialOrd, Ord)]
pub enum SensorType {
    Temperature,
    Humidity,
    Airpressure,
    Co2,
}

/// A sensor and the quantities it measures. `Sensor::new` lists each
/// type once; the field itself is public and does not enforce it.
pub struct Sensor {
    pub reference: String,
    pub name: String,
    pub sensor_types: Vec<SensorType>,
}

/// The name of a sensor type.
pub open spec fn spec_sensor_type_name(t: SensorType) -> Seq<char> {
    match t {
        SensorType::Temperature => "temperature"@,
        SensorType::Humidity => "humidity"@,
        SensorType::Airpressure => "airpressure"@,
        SensorType::Co2 => "co2"@,
    }
}

impl SensorType {
    /// The name of the type (`From<&SensorType> for &str`).
    pub fn as_str(&self) -> (r: &'static str)
        ensures
            r@ == spec_sensor_type_name(*self),
    {
        match self {
            SensorType::Temperature => "temperature",
            SensorType::Humidity => "humidity",
            SensorType::Airpressure => "airpressure",
            SensorType::Co2 => "co2",
        }
    }
}

/// Whether two sensor types are the same.
fn same_sensor_type(a: SensorType, b: SensorType) -> (s: bool)
    ensures
        s == (a == b),
{
    a == b
}

impl Sensor {
    /// A sensor with the given reference, name and set of types; a type
    /// listed more than once is kept once.
    pub fn new(reference: &str, name: &str, sensor_types: Vec<SensorType>) -> (r: Self)
        ensures
            r.reference@ == reference@,
            r.name@ == name@,
            r.sensor_types@.no_duplicates(),
            r.sensor_types@.to_set() == sensor_types@.to_set(),
    {
        Self {
            reference: reference.to_owned(),
            name: name.to_owned(),
            sensor_types: distinct(
                &sensor_types,
                same_sensor_type,
            ),
        }
    }
}

} // verus!
