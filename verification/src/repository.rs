//! Records as the database stores them, the texts of the queries that
//! read measurements, and the checks made before an averaging query runs.
use vstd::prelude::*;
use crate::decimal::Decimal;
use crate::text::{chars_of, str_eq};

verus! {

/// A quantity a sensor measures, as the `sensor_type` column stores it.
#[derive(Debug, PartialEq, Eq, Structural, Clone, Copy, Hash, PartialOrd, Ord)]
pub enum SensorType {
    Temperature,
    Humidity,
    Airpressure,
    LightIntensity,
    Co2,
    BatteryVoltage,
    ChipTemperature,
}

/// The name under which a sensor type is stored.
pub open spec fn spec_sensor_type_name(t: SensorType) -> Seq<char> {
    match t {
        SensorType::Temperature => "temperature"@,
        SensorType::Humidity => "humidity"@,
        SensorType::Airpressure => "airpressure"@,
        SensorType::LightIntensity => "lightintensity"@,
        SensorType::ChipTemperature => "chiptemperature"@,
        SensorType::BatteryVoltage => "BatteryVoltage"@,
        SensorType::Co2 => "co2"@,
    }
}

/// The sensor type a name is read as (`FromStr`). `lightintensity` is not
/// read.
pub open spec fn spec_sensor_type_from_name(s: Seq<char>) -> Option<SensorType> {
    if s == "temperature"@ {
        Some(SensorType::Temperature)
    } else if s == "humidity"@ {
        Some(SensorType::Humidity)
    } else if s == "airpressure"@ {
        Some(SensorType::Airpressure)
    } else if s == "chiptemperature"@ {
        Some(SensorType::ChipTemperature)
    } else if s == "BatteryVoltage"@ {
        Some(SensorType::BatteryVoltage)
    } else if s == "co2"@ {
        Some(SensorType::Co2)
    } else {
        None
    }
}

impl SensorType {
    /// The stored name of the type (`From<&SensorType> for &str`).
    pub fn as_str(&self) -> (r: &'static str)
        ensures
            r@ == spec_sensor_type_name(*self),
    {
        match self {
            SensorType::Temperature => "temperature",
            SensorType::Humidity => "humidity",
            SensorType::Airpressure => "airpressure",
            SensorType::LightIntensity => "lightintensity",
            SensorType::ChipTemperature => "chiptemperature",
            SensorType::BatteryVoltage => "BatteryVoltage",
            SensorType::Co2 => "co2",
        }
    }

    /// Reads a stored name (`FromStr`); `None` for any other text.
    pub fn from_name(value: &str) -> (r: Option<SensorType>)
        ensures
            r == spec_sensor_type_from_name(value@),
    {
        if str_eq(value, "temperature") {
            Some(SensorType::Temperature)
        } else if str_eq(value, "humidity") {
            Some(SensorType::Humidity)
        } else if str_eq(value, "airpressure") {
            Some(SensorType::Airpressure)
        } else if str_eq(value, "chiptemperature") {
            Some(SensorType::ChipTemperature)
        } else if str_eq(value, "BatteryVoltage") {
            Some(SensorType::BatteryVoltage)
        } else if str_eq(value, "co2") {
            Some(SensorType::Co2)
        } else {
            None
        }
    }
}

/// Reading the stored name of a type gives the type back, for every type
/// but `LightIntensity`, whose name is not read.
pub proof fn law_sensor_type_name_round_trip(t: SensorType)
    requires
        t != SensorType::LightIntensity,
    ensures
        spec_sensor_type_from_name(spec_sensor_type_name(t)) == Some(t),
{
    reveal_strlit("temperature");
    reveal_strlit("humidity");
    reveal_strlit("airpressure");
    reveal_strlit("chiptemperature");
    reveal_strlit("BatteryVoltage");
    reveal_strlit("co2");
    assert("temperature"@[0] == 't');
    assert("humidity"@[0] == 'h');
    assert("airpressure"@[0] == 'a');
    assert("chiptemperature"@[0] == 'c');
    assert("BatteryVoltage"@[0] == 'B');
    assert("co2"@[0] == 'c');
    assert("chiptemperature"@.len() == 15);
    assert("co2"@.len() == 3);
}

/// A name that is read names the type it is read as.
pub proof fn law_sensor_type_from_name_sound(s: Seq<char>)
    ensures
        spec_sensor_type_from_name(s) matches Some(t) ==> spec_sensor_type_name(t) == s,
{
}

/// The label of the `sensor_type` database enum that a type is written as
/// and read from: the variant's name in lower case.
pub open spec fn spec_sensor_type_label(t: SensorType) -> Seq<char> {
    match t {
        SensorType::Temperature => "temperature"@,
        SensorType::Humidity => "humidity"@,
        SensorType::Airpressure => "airpressure"@,
        SensorType::LightIntensity => "lightintensity"@,
        SensorType::Co2 => "co2"@,
        SensorType::BatteryVoltage => "batteryvoltage"@,
        SensorType::ChipTemperature => "chiptemperature"@,
    }
}

/// The type a `sensor_type` label is read as.
pub open spec fn spec_sensor_type_from_label(s: Seq<char>) -> Option<SensorType> {
    if s == "temperature"@ {
        Some(SensorType::Temperature)
    } else if s == "humidity"@ {
        Some(SensorType::Humidity)
    } else if s == "airpressure"@ {
        Some(SensorType::Airpressure)
    } else if s == "lightintensity"@ {
        Some(SensorType::LightIntensity)
    } else if s == "co2"@ {
        Some(SensorType::Co2)
    } else if s == "batteryvoltage"@ {
        Some(SensorType::BatteryVoltage)
    } else if s == "chiptemperature"@ {
        Some(SensorType::ChipTemperature)
    } else {
        None
    }
}

impl SensorType {
    /// The database label of the type.
    pub fn label(&self) -> (r: &'static str)
        ensures
            r@ == spec_sensor_type_label(*self),
    {
        match self {
            SensorType::Temperature => "temperature",
            SensorType::Humidity => "humidity",
            SensorType::Airpressure => "airpressure",
            SensorType::LightIntensity => "lightintensity",
            SensorType::Co2 => "co2",
            SensorType::BatteryVoltage => "batteryvoltage",
            SensorType::ChipTemperature => "chiptemperature",
        }
    }

    /// Reads a database label; `None` for any other text.
    pub fn from_label(value: &str) -> (r: Option<SensorType>)
        ensures
            r == spec_sensor_type_from_label(value@),
    {
        if str_eq(value, "temperature") {
            Some(SensorType::Temperature)
        } else if str_eq(value, "humidity") {
            Some(SensorType::Humidity)
        } else if str_eq(value, "airpressure") {
            Some(SensorType::Airpressure)
        } else if str_eq(value, "lightintensity") {
            Some(SensorType::LightIntensity)
        } else if str_eq(value, "co2") {
            Some(SensorType::Co2)
        } else if str_eq(value, "batteryvoltage") {
            Some(SensorType::BatteryVoltage)
        } else if str_eq(value, "chiptemperature") {
            Some(SensorType::ChipTemperature)
        } else {
            None
        }
    }
}

/// Every type is read back from its database label, and a label that is
/// read is the label of the type it is read as.
pub proof fn law_sensor_type_label_round_trip(t: SensorType, s: Seq<char>)
    ensures
        spec_sensor_type_from_label(spec_sensor_type_label(t)) == Some(t),
        spec_sensor_type_from_label(s) matches Some(u) ==> spec_sensor_type_label(u) == s,
{
    reveal_strlit("temperature");
    reveal_strlit("humidity");
    reveal_strlit("airpressure");
    reveal_strlit("lightintensity");
    reveal_strlit("co2");
    reveal_strlit("batteryvoltage");
    reveal_strlit("chiptemperature");
    assert("temperature"@[0] == 't');
    assert("humidity"@[0] == 'h');
    assert("airpressure"@[0] == 'a');
    assert("lightintensity"@[0] == 'l');
    assert("co2"@[0] == 'c');
    assert("batteryvoltage"@[0] == 'b');
    assert("chiptemperature"@[0] == 'c');
    assert("co2"@.len() == 3);
    assert("chiptemperature"@.len() == 15);
}

/// A sensor type is stored under its database label, the variant's name in
/// lower case (`temperature`, `airpressure`, ...), except `BatteryVoltage`,
/// which is stored under its name as written; reading a label back gives
/// the type it labels, for every type whose stored name is read.
pub proof fn law_sensor_type_names_are_labels(t: SensorType)
    ensures
        t != SensorType::BatteryVoltage ==> spec_sensor_type_name(t) == spec_sensor_type_label(t),
        t == SensorType::BatteryVoltage ==> spec_sensor_type_name(t) == "BatteryVoltage"@,
        t == SensorType::Temperature ==> spec_sensor_type_name(t) == "temperature"@,
        t == SensorType::Airpressure ==> spec_sensor_type_name(t) == "airpressure"@,
        t != SensorType::LightIntensity && t != SensorType::BatteryVoltage
            ==> spec_sensor_type_from_name(spec_sensor_type_label(t)) == Some(t)
            && spec_sensor_type_from_label(spec_sensor_type_label(t)) == Some(t),
{
    if t != SensorType::LightIntensity {
        law_sensor_type_name_round_trip(t);
    }
    law_sensor_type_label_round_trip(t, spec_sensor_type_label(t));
}

/// The database labels of `types`, in order.
pub fn sensor_type_labels(types: &Vec<SensorType>) -> (r: Vec<String>)
    ensures
        r@.len() == types@.len(),
        forall|i: int| 0 <= i < r@.len() ==> #[trigger] r@[i]@ == spec_sensor_type_label(types@[i]),
{
    let mut r: Vec<String> = Vec::new();
    let mut i: usize = 0;
    while i < types.len()
        invariant
            i <= types@.len(),
            r@.len() == i,
            forall|k: int| 0 <= k < i ==> #[trigger] r@[k]@ == spec_sensor_type_label(types@[k]),
        decreases types@.len() - i,
    {
        let label = types[i].label();
        r.push(label.to_owned());
        i = i + 1;
    }
    r
}

/// The stored names of `types`, in order.
pub fn sensor_type_names(types: &Vec<SensorType>) -> (r: Vec<String>)
    ensures
        r@.len() == types@.len(),
        forall|i: int| 0 <= i < r@.len() ==> #[trigger] r@[i]@ == spec_sensor_type_name(types@[i]),
{
    let mut r: Vec<String> = Vec::new();
    let mut i: usize = 0;
    while i < types.len()
        invariant
            i <= types@.len(),
            r@.len() == i,
            forall|k: int| 0 <= k < i ==> #[trigger] r@[k]@ == spec_sensor_type_name(types@[k]),
        decreases types@.len() - i,
    {
        let name = types[i].as_str();
        r.push(name.to_owned());
        i = i + 1;
    }
    r
}

/// A sensor as stored. `sensor_id` is assigned by the database.
pub struct Sensor {
    pub sensor_id: i32,
    pub sensor_reference: String,
    pub sensor_name: String,
    pub sensor_types: Vec<SensorType>,
}

impl Sensor {
    pub fn new_with_id(id: i32, reference: &str, name: &str, sensor_types: Vec<SensorType>) -> (r:
        Self)
        ensures
            r.sensor_id == id,
            r.sensor_reference@ == reference@,
            r.sensor_name@ == name@,
            r.sensor_types@ == sensor_types@,
    {
        Self {
            sensor_id: id,
            sensor_reference: reference.to_owned(),
            sensor_name: name.to_owned(),
            sensor_types,
        }
    }

    /// A sensor not stored yet (id 0).
    pub fn new(reference: &str, name: &str, sensor_types: Vec<SensorType>) -> (r: Self)
        ensures
            r.sensor_id == 0,
            r.sensor_reference@ == reference@,
            r.sensor_name@ == name@,
            r.sensor_types@ == sensor_types@,
    {
        Self::new_with_id(0, reference, name, sensor_types)
    }
}

/// A reading of a single quantity at a point in time, as stored.
pub trait DBSimpleMeasurement: Sized {
    spec fn spec_measurement(&self) -> Decimal;

    spec fn spec_measure_time(&self) -> i64;

    spec fn spec_rounding_places() -> i64;

    /// A reading not stored yet.
    fn new(measurement: Decimal, measure_time: i64) -> (r: Self)
        ensures
            r.spec_measurement() == measurement,
            r.spec_measure_time() == measure_time,
    ;

    fn measurement(&self) -> (r: &Decimal)
        ensures
            *r == self.spec_measurement(),
    ;

    /// Microseconds since the Unix epoch (UTC).
    fn measure_time(&self) -> (r: i64)
        ensures
            r == self.spec_measure_time(),
    ;

    /// Decimal places the stored column keeps.
    fn rounding_places() -> (r: i64)
        ensures
            r == Self::spec_rounding_places(),
    ;
}

/// A reading read back from any measurement table.
pub struct SimpleMeasurement {
    pub measurement: Decimal,
    pub measure_time: i64,
}

impl SimpleMeasurement {
    pub fn new(measurement: Decimal, measure_time: i64) -> (r: Self)
        ensures
            r.measurement == measurement,
            r.measure_time == measure_time,
    {
        Self { measurement, measure_time }
    }
}

impl DBSimpleMeasurement for SimpleMeasurement {
    open spec fn spec_measurement(&self) -> Decimal {
        self.measurement
    }

    open spec fn spec_measure_time(&self) -> i64 {
        self.measure_time
    }

    open spec fn spec_rounding_places() -> i64 {
        18
    }

    fn new(measurement: Decimal, measure_time: i64) -> (r: Self) {
        SimpleMeasurement { measurement, measure_time }
    }

    fn measurement(&self) -> (r: &Decimal) {
        &self.measurement
    }

    fn measure_time(&self) -> (r: i64) {
        self.measure_time
    }

    fn rounding_places() -> (r: i64) {
        18
    }
}

/// A stored temperature reading in degrees Celsius.
pub struct Temperature {
    pub temperature_id: i64,
    pub sensor_id: i32,
    pub temp_celsius: Decimal,
    pub measure_time: i64,
}

impl Temperature {
    /// A reading not stored yet (ids -1).
    pub fn new(temp_celsius: Decimal, measure_time: i64) -> (r: Self)
        ensures
            r.temperature_id == -1,
            r.sensor_id == -1,
            r.temp_celsius == temp_celsius,
            r.measure_time == measure_time,
    {
        Self { temperature_id: -1, sensor_id: -1, temp_celsius, measure_time }
    }
}

impl DBSimpleMeasurement for Temperature {
    open spec fn spec_measurement(&self) -> Decimal {
        self.temp_celsius
    }

    open spec fn spec_measure_time(&self) -> i64 {
        self.measure_time
    }

    open spec fn spec_rounding_places() -> i64 {
        3
    }

    fn new(measurement: Decimal, measure_time: i64) -> (r: Self) {
        Temperature::new(measurement, measure_time)
    }

    fn measurement(&self) -> (r: &Decimal) {
        &self.temp_celsius
    }

    fn measure_time(&self) -> (r: i64) {
        self.measure_time
    }

    fn rounding_places() -> (r: i64) {
        3
    }
}

/// A stored humidity reading in percent.
pub struct Humidity {
    pub humidity_id: i64,
    pub sensor_id: i32,
    pub humidity_percent: Decimal,
    pub measure_time: i64,
}

impl Humidity {
    /// A reading not stored yet (ids -1).
    pub fn new(humidity_percent: Decimal, measure_time: i64) -> (r: Self)
        ensures
            r.humidity_id == -1,
            r.sensor_id == -1,
            r.humidity_percent == humidity_percent,
            r.measure_time == measure_time,
    {
        Self { humidity_id: -1, sensor_id: -1, humidity_percent, measure_time }
    }
}

impl DBSimpleMeasurement for Humidity {
    open spec fn spec_measurement(&self) -> Decimal {
        self.humidity_percent
    }

    open spec fn spec_measure_time(&self) -> i64 {
        self.measure_time
    }

    open spec fn spec_rounding_places() -> i64 {
        3
    }

    fn new(measurement: Decimal, measure_time: i64) -> (r: Self) {
        Humidity::new(measurement, measure_time)
    }

    fn measurement(&self) -> (r: &Decimal) {
        &self.humidity_percent
    }

    fn measure_time(&self) -> (r: i64) {
        self.measure_time
    }

    fn rounding_places() -> (r: i64) {
        3
    }
}

/// A stored air pressure reading in pascal.
pub struct AirPressure {
    pub air_pressure_id: i64,
    pub sensor_id: i32,
    pub air_pressure_pa: Decimal,
    pub measure_time: i64,
}

impl AirPressure {
    /// A reading not stored yet (ids -1).
    pub fn new(air_pressure_pa: Decimal, measure_time: i64) -> (r: Self)
        ensures
            r.air_pressure_id == -1,
            r.sensor_id == -1,
            r.air_pressure_pa == air_pressure_pa,
            r.measure_time == measure_time,
    {
        Self { air_pressure_id: -1, sensor_id: -1, air_pressure_pa, measure_time }
    }
}

impl DBSimpleMeasurement for AirPressure {
    open spec fn spec_measurement(&self) -> Decimal {
        self.air_pressure_pa
    }

    open spec fn spec_measure_time(&self) -> i64 {
        self.measure_time
    }

    open spec fn spec_rounding_places() -> i64 {
        3
    }

    fn new(measurement: Decimal, measure_time: i64) -> (r: Self) {
        AirPressure::new(measurement, measure_time)
    }

    fn measurement(&self) -> (r: &Decimal) {
        &self.air_pressure_pa
    }

    fn measure_time(&self) -> (r: i64) {
        self.measure_time
    }

    fn rounding_places() -> (r: i64) {
        3
    }
}

/// A stored light intensity reading.
pub struct LightIntensity {
    pub light_intensity_id: i64,
    pub sensor_id: i32,
    pub light_intensity: Decimal,
    pub measure_time: i64,
}

impl LightIntensity {
    /// A reading not stored yet (ids -1).
    pub fn new(light_intensity: Decimal, measure_time: i64) -> (r: Self)
        ensures
            r.light_intensity_id == -1,
            r.sensor_id == -1,
            r.light_intensity == light_intensity,
            r.measure_time == measure_time,
    {
        Self { light_intensity_id: -1, sensor_id: -1, light_intensity, measure_time }
    }
}

impl DBSimpleMeasurement for LightIntensity {
    open spec fn spec_measurement(&self) -> Decimal {
        self.light_intensity
    }

    open spec fn spec_measure_time(&self) -> i64 {
        self.measure_time
    }

    open spec fn spec_rounding_places() -> i64 {
        9
    }

    fn new(measurement: Decimal, measure_time: i64) -> (r: Self) {
        LightIntensity::new(measurement, measure_time)
    }

    fn measurement(&self) -> (r: &Decimal) {
        &self.light_intensity
    }

    fn measure_time(&self) -> (r: i64) {
        self.measure_time
    }

    fn rounding_places() -> (r: i64) {
        9
    }
}

/// A stored temperature reading of a sensor's processor.
pub struct ChipTemperature {
    pub chip_temperature_id: i64,
    pub sensor_id: i32,
    pub temp_celsius: Decimal,
    pub measure_time: i64,
}

impl ChipTemperature {
    /// A reading not stored yet (ids -1).
    pub fn new(temp_celsius: Decimal, measure_time: i64) -> (r: Self)
        ensures
            r.chip_temperature_id == -1,
            r.sensor_id == -1,
            r.temp_celsius == temp_celsius,
            r.measure_time == measure_time,
    {
        Self { chip_temperature_id: -1, sensor_id: -1, temp_celsius, measure_time }
    }
}

impl DBSimpleMeasurement for ChipTemperature {
    open spec fn spec_measurement(&self) -> Decimal {
        self.temp_celsius
    }

    open spec fn spec_measure_time(&self) -> i64 {
        self.measure_time
    }

    open spec fn spec_rounding_places() -> i64 {
        3
    }

    fn new(measurement: Decimal, measure_time: i64) -> (r: Self) {
        ChipTemperature::new(measurement, measure_time)
    }

    fn measurement(&self) -> (r: &Decimal) {
        &self.temp_celsius
    }

    fn measure_time(&self) -> (r: i64) {
        self.measure_time
    }

    fn rounding_places() -> (r: i64) {
        3
    }
}

/// A stored battery voltage reading in volts.
pub struct BatteryVoltage {
    pub battery_voltage_id: i64,
    pub sensor_id: i32,
    pub battery_volt: Decimal,
    pub measure_time: i64,
}

impl BatteryVoltage {
    /// A reading not stored yet (ids -1).
    pub fn new(battery_volt: Decimal, measure_time: i64) -> (r: Self)
        ensures
            r.battery_voltage_id == -1,
            r.sensor_id == -1,
            r.battery_volt == battery_volt,
            r.measure_time == measure_time,
    {
        Self { battery_voltage_id: -1, sensor_id: -1, battery_volt, measure_time }
    }
}

impl DBSimpleMeasurement for BatteryVoltage {
    open spec fn spec_measurement(&self) -> Decimal {
        self.battery_volt
    }

    open spec fn spec_measure_time(&self) -> i64 {
        self.measure_time
    }

    open spec fn spec_rounding_places() -> i64 {
        6
    }

    fn new(measurement: Decimal, measure_time: i64) -> (r: Self) {
        BatteryVoltage::new(measurement, measure_time)
    }

    fn measurement(&self) -> (r: &Decimal) {
        &self.battery_volt
    }

    fn measure_time(&self) -> (r: i64) {
        self.measure_time
    }

    fn rounding_places() -> (r: i64) {
        6
    }
}

/// A stored CO2 reading.
pub struct Co2 {
    pub co2_id: i64,
    pub sensor_id: i32,
    pub co2_ppm: Decimal,
    pub res0: Decimal,
    pub adc_val_12bit: i32,
    pub measure_time: i64,
}

/// A stored error report of a sensor.
pub struct SensorError {
    pub sensor_error_id: i64,
    pub sensor_id: i32,
    pub error_code: i32,
    pub error_text: String,
    pub error_time: i64,
}

/// The values and the times of `items`, as two columns in the same order,
/// for one multi-row insert.
pub fn measurement_columns<T: DBSimpleMeasurement>(items: &Vec<T>) -> (r: (Vec<Decimal>, Vec<i64>))
    ensures
        r.0@.len() == items@.len(),
        r.1@.len() == items@.len(),
        forall|i: int| 0 <= i < items@.len() ==> #[trigger] r.0@[i] == items@[i].spec_measurement(),
        forall|i: int| 0 <= i < items@.len() ==> #[trigger] r.1@[i] == items@[i].spec_measure_time(),
{
    let mut values: Vec<Decimal> = Vec::new();
    let mut times: Vec<i64> = Vec::new();
    let mut i: usize = 0;
    while i < items.len()
        invariant
            i <= items@.len(),
            values@.len() == i,
            times@.len() == i,
            forall|k: int| 0 <= k < i ==> #[trigger] values@[k] == items@[k].spec_measurement(),
            forall|k: int| 0 <= k < i ==> #[trigger] times@[k] == items@[k].spec_measure_time(),
        decreases items@.len() - i,
    {
        values.push(*items[i].measurement());
        times.push(items[i].measure_time());
        i = i + 1;
    }
    (values, times)
}

/// Start of the query that reads the readings of a sensor in a time range.
pub const SELECT_IN_TS_RANGE_SQL_1: &'static str = "SELECT m.";

pub const SELECT_IN_TS_RANGE_SQL_2: &'static str = "\n         as measurement, m.measure_time as measure_time\n        FROM sensors s \n        LEFT JOIN \n        ";

pub const SELECT_IN_TS_RANGE_SQL_3: &'static str = "\n         m ON s.sensor_id = m.sensor_id\n        WHERE s.sensor_id = $1\n        AND $2 <= m.measure_time AND m.measure_time <= $3\n        ";

/// Start of the query for the first and last reading time in a range.
pub const MIN_MAX_SQL_1: &'static str = "\n        SELECT MIN(t.measure_time) min_ts, MAX(t.measure_time) max_ts\n        FROM \n        ";

pub const MIN_MAX_SQL_2: &'static str = "\n         t WHERE t.sensor_id = $1\n         AND t.measure_time >= $2\n         AND t.measure_time <= $3\n        ";

/// Start of the query for the averages over consecutive intervals.
pub const SELECT_AVG_INTERVALS_IN_TS_RANGE_SQL_1: &'static str = "\n        SELECT d::timestamp timestamp_from, avg(m.";

pub const SELECT_AVG_INTERVALS_IN_TS_RANGE_SQL_2: &'static str = "\n        ) avg_measurement\n        FROM ";

pub const SELECT_AVG_INTERVALS_IN_TS_RANGE_SQL_3: &'static str = "\n         m\n        INNER JOIN generate_series(\n            $2::timestamp, $3::timestamp, $4::interval\n        ) d\n        ON m.measure_time >= d::timestamp AND m.measure_time <= d::timestamp + $4 \n        WHERE \n            m.sensor_id = $1\n            AND m.measure_time >= $2 AND m.measure_time <= $3\n        GROUP BY d::timestamp ORDER BY d::timestamp desc\n        ";

/// The tables that hold readings of one quantity.
#[derive(Debug, PartialEq, Eq, Structural, Clone, Copy)]
pub enum MeasureTable {
    Temperatures,
    Humidities,
    AirPressures,
    LightIntensities,
    BatteryVoltages,
    ChipTemperatures,
}

/// The column that holds the reading in a table.
pub open spec fn spec_measure_column(t: MeasureTable) -> Seq<char> {
    match t {
        MeasureTable::Temperatures => "temp_celsius"@,
        MeasureTable::Humidities => "humidity_percent"@,
        MeasureTable::AirPressures => "air_pressure_pa"@,
        MeasureTable::LightIntensities => "light_intensity"@,
        MeasureTable::BatteryVoltages => "battery_volt"@,
        MeasureTable::ChipTemperatures => "temp_celsius"@,
    }
}

/// The name of a table.
pub open spec fn spec_measure_table(t: MeasureTable) -> Seq<char> {
    match t {
        MeasureTable::Temperatures => "temperatures"@,
        MeasureTable::Humidities => "humidities"@,
        MeasureTable::AirPressures => "air_pressures"@,
        MeasureTable::LightIntensities => "light_intensities"@,
        MeasureTable::BatteryVoltages => "battery_voltages"@,
        MeasureTable::ChipTemperatures => "chip_temperatures"@,
    }
}

impl MeasureTable {
    pub fn column(self) -> (r: &'static str)
        ensures
            r@ == spec_measure_column(self),
    {
        match self {
            MeasureTable::Temperatures => "temp_celsius",
            MeasureTable::Humidities => "humidity_percent",
            MeasureTable::AirPressures => "air_pressure_pa",
            MeasureTable::LightIntensities => "light_intensity",
            MeasureTable::BatteryVoltages => "battery_volt",
            MeasureTable::ChipTemperatures => "temp_celsius",
        }
    }

    pub fn table(self) -> (r: &'static str)
        ensures
            r@ == spec_measure_table(self),
    {
        match self {
            MeasureTable::Temperatures => "temperatures",
            MeasureTable::Humidities => "humidities",
            MeasureTable::AirPressures => "air_pressures",
            MeasureTable::LightIntensities => "light_intensities",
            MeasureTable::BatteryVoltages => "battery_voltages",
            MeasureTable::ChipTemperatures => "chip_temperatures",
        }
    }
}

/// The table that holds the simple readings of a sensor type; CO2
/// readings are not simple readings and have none.
pub open spec fn spec_measure_table_for(kind: SensorType) -> Option<MeasureTable> {
    match kind {
        SensorType::Temperature => Some(MeasureTable::Temperatures),
        SensorType::Humidity => Some(MeasureTable::Humidities),
        SensorType::Airpressure => Some(MeasureTable::AirPressures),
        SensorType::LightIntensity => Some(MeasureTable::LightIntensities),
        SensorType::BatteryVoltage => Some(MeasureTable::BatteryVoltages),
        SensorType::ChipTemperature => Some(MeasureTable::ChipTemperatures),
        SensorType::Co2 => None,
    }
}

/// Each sensor type's readings are read from the table named after the
/// quantity (temperatures from `temperatures`, chip temperatures from
/// `chip_temperatures`, ...), in the column that holds the reading; CO2
/// readings from none of these. The tables have pairwise distinct names,
/// so no two quantities share one.
pub proof fn law_measure_tables_by_quantity(kind: SensorType, a: MeasureTable, b: MeasureTable)
    ensures
        kind == SensorType::Temperature ==> (spec_measure_table_for(kind) matches Some(m)
            && spec_measure_table(m) == "temperatures"@
            && spec_measure_column(m) == "temp_celsius"@),
        kind == SensorType::Humidity ==> (spec_measure_table_for(kind) matches Some(m)
            && spec_measure_table(m) == "humidities"@
            && spec_measure_column(m) == "humidity_percent"@),
        kind == SensorType::Airpressure ==> (spec_measure_table_for(kind) matches Some(m)
            && spec_measure_table(m) == "air_pressures"@
            && spec_measure_column(m) == "air_pressure_pa"@),
        kind == SensorType::LightIntensity ==> (spec_measure_table_for(kind) matches Some(m)
            && spec_measure_table(m) == "light_intensities"@
            && spec_measure_column(m) == "light_intensity"@),
        kind == SensorType::BatteryVoltage ==> (spec_measure_table_for(kind) matches Some(m)
            && spec_measure_table(m) == "battery_voltages"@
            && spec_measure_column(m) == "battery_volt"@),
        kind == SensorType::ChipTemperature ==> (spec_measure_table_for(kind) matches Some(m)
            && spec_measure_table(m) == "chip_temperatures"@
            && spec_measure_column(m) == "temp_celsius"@),
        kind == SensorType::Co2 ==> spec_measure_table_for(kind) is None,
        a != b ==> spec_measure_table(a) != spec_measure_table(b),
{
    reveal_strlit("temperatures");
    reveal_strlit("humidities");
    reveal_strlit("air_pressures");
    reveal_strlit("light_intensities");
    reveal_strlit("battery_voltages");
    reveal_strlit("chip_temperatures");
    assert("temperatures"@.len() == 12);
    assert("humidities"@.len() == 10);
    assert("air_pressures"@.len() == 13);
    assert("light_intensities"@.len() == 17);
    assert("battery_voltages"@.len() == 16);
    assert("chip_temperatures"@.len() == 17);
    assert("light_intensities"@[0] == 'l');
    assert("chip_temperatures"@[0] == 'c');
}

/// The table an averaging query for readings of `kind` reads.
pub fn measure_table_for(kind: SensorType) -> (r: Option<MeasureTable>)
    ensures
        r == spec_measure_table_for(kind),
{
    match kind {
        SensorType::Temperature => Some(MeasureTable::Temperatures),
        SensorType::Humidity => Some(MeasureTable::Humidities),
        SensorType::Airpressure => Some(MeasureTable::AirPressures),
        SensorType::LightIntensity => Some(MeasureTable::LightIntensities),
        SensorType::BatteryVoltage => Some(MeasureTable::BatteryVoltages),
        SensorType::ChipTemperature => Some(MeasureTable::ChipTemperatures),
        SensorType::Co2 => None,
    }
}

/// The query for the readings of a sensor in a time range (`$1` sensor id,
/// `$2` start, `$3` end).
pub fn select_in_timerange_sql(t: MeasureTable) -> (r: String)
    ensures
        r@ == SELECT_IN_TS_RANGE_SQL_1@ + spec_measure_column(t) + SELECT_IN_TS_RANGE_SQL_2@
            + spec_measure_table(t) + SELECT_IN_TS_RANGE_SQL_3@,
{
    let mut q = String::from_str(SELECT_IN_TS_RANGE_SQL_1);
    q.append(t.column());
    q.append(SELECT_IN_TS_RANGE_SQL_2);
    q.append(t.table());
    q.append(SELECT_IN_TS_RANGE_SQL_3);
    q
}

/// The query for the first and last reading time of a sensor in a time
/// range.
pub fn select_min_max_sql(t: MeasureTable) -> (r: String)
    ensures
        r@ == MIN_MAX_SQL_1@ + spec_measure_table(t) + MIN_MAX_SQL_2@,
{
    let mut q = String::from_str(MIN_MAX_SQL_1);
    q.append(t.table());
    q.append(MIN_MAX_SQL_2);
    q
}

/// The query for the average reading over consecutive intervals of a time
/// range (`$4` the interval).
pub fn select_avg_intervals_sql(t: MeasureTable) -> (r: String)
    ensures
        r@ == SELECT_AVG_INTERVALS_IN_TS_RANGE_SQL_1@ + spec_measure_column(t)
            + SELECT_AVG_INTERVALS_IN_TS_RANGE_SQL_2@ + spec_measure_table(t)
            + SELECT_AVG_INTERVALS_IN_TS_RANGE_SQL_3@,
{
    let mut q = String::from_str(SELECT_AVG_INTERVALS_IN_TS_RANGE_SQL_1);
    q.append(t.column());
    q.append(SELECT_AVG_INTERVALS_IN_TS_RANGE_SQL_2);
    q.append(t.table());
    q.append(SELECT_AVG_INTERVALS_IN_TS_RANGE_SQL_3);
    q
}

/// First and last reading time found in a range (`None` when there is no
/// reading).
pub struct MinTsMaxTs {
    pub min_ts: Option<i64>,
    pub max_ts: Option<i64>,
}

/// The average reading over one interval that starts at `timestamp_from`.
pub struct AvgMeasureTimeInterval {
    pub timestamp_from: i64,
    pub avg_measurement: Decimal,
}

/// Most intervals one averaging query may span.
pub const MAX_INTERVAL_NUM: u64 = 10_000;

/// Why an averaging query is not run.
#[derive(Debug, PartialEq, Eq, Structural, Clone, Copy)]
pub enum IntervalQueryError {
    /// The interval is zero.
    ZeroInterval,
    /// The range spans more intervals than allowed; the count found.
    TooManyIntervals(u64),
    /// The interval does not fit a PostgreSQL `INTERVAL`.
    IntervalOverflow,
    /// No reading lies in the range.
    NoEntries,
}

/// The number of whole intervals of `interval` milliseconds in the range
/// from `start` to `end` (microseconds): the length of the range in whole
/// milliseconds, divided by the interval's and rounded toward zero, without
/// its sign.
pub open spec fn spec_interval_count(start: i64, end: i64, interval: i64) -> int {
    let d: int = end - start;
    let ad: int = if d >= 0 { d } else { -d };
    let ai: int = if interval >= 0 { interval as int } else { -interval };
    (ad / 1000) / ai
}

/// `sqlx::postgres::types::PgInterval::try_from(TimeDelta::milliseconds(ms))`,
/// as microseconds: present when the interval in nanoseconds fits an `i64`.
#[verifier::external_body]
fn pg_interval_micros(interval_millis: i64) -> (r: Option<i64>)
    requires
        interval_millis != i64::MIN,
    ensures
        r is Some <==> i64::MIN <= interval_millis * 1_000_000 <= i64::MAX,
        r matches Some(us) ==> us == interval_millis * 1000,
{
    sqlx::postgres::types::PgInterval::try_from(chrono::TimeDelta::milliseconds(interval_millis))
        .ok()
        .map(|i| i.microseconds)
}

/// Checks an averaging query over `start..=end` (microseconds) in steps of
/// `interval_millis` milliseconds, and gives the interval in microseconds.
pub fn plan_interval_query(start: i64, end: i64, interval_millis: i64) -> (r: Result<
    i64,
    IntervalQueryError,
>)
    requires
        interval_millis != i64::MIN,
    ensures
        interval_millis == 0 ==> r == Err::<i64, IntervalQueryError>(
            IntervalQueryError::ZeroInterval,
        ),
        interval_millis != 0 && spec_interval_count(start, end, interval_millis)
            > MAX_INTERVAL_NUM ==> r == Err::<i64, IntervalQueryError>(
            IntervalQueryError::TooManyIntervals(
                spec_interval_count(start, end, interval_millis) as u64,
            ),
        ),
        interval_millis != 0 && spec_interval_count(start, end, interval_millis)
            <= MAX_INTERVAL_NUM ==> {
            if i64::MIN <= interval_millis * 1_000_000 <= i64::MAX {
                r == Ok::<i64, IntervalQueryError>((interval_millis * 1000) as i64)
            } else {
                r == Err::<i64, IntervalQueryError>(IntervalQueryError::IntervalOverflow)
            }
        },
{
    if interval_millis == 0 {
        return Err(IntervalQueryError::ZeroInterval);
    }
    let d: i128 = (end as i128) - (start as i128);
    let ad: i128 = if d >= 0 { d } else { -d };
    let ai: i128 = if interval_millis >= 0 { interval_millis as i128 } else { -(interval_millis as i128) };
    let ams: i128 = ad / 1000;
    let count: i128 = ams / ai;
    proof {
        assert(count <= ams) by (nonlinear_arith)
            requires
                ai >= 1,
                ams >= 0,
                count == ams / ai,
        ;
        assert(count >= 0) by (nonlinear_arith)
            requires
                ai >= 1,
                ams >= 0,
                count == ams / ai,
        ;
    }
    if count > (MAX_INTERVAL_NUM as i128) {
        return Err(IntervalQueryError::TooManyIntervals(count as u64));
    }
    match pg_interval_micros(interval_millis) {
        Some(us) => Ok(us),
        None => Err(IntervalQueryError::IntervalOverflow),
    }
}

/// `x` moved into `lo..=hi` (`Ord::clamp`).
pub open spec fn spec_clamp(x: i64, lo: i64, hi: i64) -> i64 {
    if x < lo {
        lo
    } else if x > hi {
        hi
    } else {
        x
    }
}

pub fn clamp_i64(x: i64, lo: i64, hi: i64) -> (r: i64)
    requires
        lo <= hi,
    ensures
        r == spec_clamp(x, lo, hi),
{
    if x < lo {
        lo
    } else if x > hi {
        hi
    } else {
        x
    }
}

/// Narrows `start..=end` to the times of the first and last reading found,
/// or fails when no reading was found.
pub fn clamp_to_entries(start: i64, end: i64, bounds: &MinTsMaxTs) -> (r: Result<
    (i64, i64),
    IntervalQueryError,
>)
    requires
        (bounds.min_ts is Some && bounds.max_ts is Some) ==> bounds.min_ts->0 <= bounds.max_ts->0,
    ensures
        match (bounds.min_ts, bounds.max_ts) {
            (Some(a), Some(b)) => r == Ok::<(i64, i64), IntervalQueryError>(
                (spec_clamp(start, a, b), spec_clamp(end, a, b)),
            ),
            _ => r == Err::<(i64, i64), IntervalQueryError>(IntervalQueryError::NoEntries),
        },
{
    match (bounds.min_ts, bounds.max_ts) {
        (Some(a), Some(b)) => Ok((clamp_i64(start, a, b), clamp_i64(end, a, b))),
        _ => Err(IntervalQueryError::NoEntries),
    }
}

/// A clamped time lies between the bounds, and clamping it again leaves
/// it unchanged.
pub proof fn law_clamp_within_and_idempotent(x: i64, lo: i64, hi: i64)
    requires
        lo <= hi,
    ensures
        lo <= spec_clamp(x, lo, hi) <= hi,
        spec_clamp(spec_clamp(x, lo, hi), lo, hi) == spec_clamp(x, lo, hi),
        lo <= x <= hi ==> spec_clamp(x, lo, hi) == x,
{
}

} // verus!
