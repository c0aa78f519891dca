use bigdecimal::BigDecimal;
use sensor_data_server::api;
use sensor_data_server::api_db_conv::{ModelFrom, ModelInto};
use sensor_data_server::config::{
    get_database_connection_string, Config, DBConfig, EmailConfig, HttpServiceConfig,
    LogLevelFilter, LoggingConfig, MQTTConfig,
};
use sensor_data_server::decimal::{pow10_i128, Decimal};
use sensor_data_server::email::{high_temp_warning_email, low_temp_warning_email};
use sensor_data_server::repository::{
    self, clamp_to_entries, measure_table_for, sensor_type_labels, measurement_columns, plan_interval_query, select_avg_intervals_sql,
    select_in_timerange_sql, select_min_max_sql, sensor_type_names, AirPressure, BatteryVoltage,
    ChipTemperature, DBSimpleMeasurement, Humidity, IntervalQueryError, LightIntensity,
    MeasureTable, MinTsMaxTs, SimpleMeasurement, Temperature,
};
use sensor_data_server::wire;
use sensor_data_server::repository::SensorType as T;
use std::str::FromStr;

fn dec(s: &str) -> Decimal {
    let (m, scale) = BigDecimal::from_str(s).unwrap().as_bigint_and_exponent();
    Decimal { mantissa: i128::try_from(m).unwrap(), scale: scale as u32 }
}

#[test]
fn api_sensor_new_keeps_each_type_once() {
    let s = api::Sensor::new(
        "ref-1",
        "Garden",
        vec![api::SensorType::Co2, api::SensorType::Temperature, api::SensorType::Co2],
    );
    assert_eq!(s.reference, "ref-1");
    assert_eq!(s.name, "Garden");
    assert_eq!(s.sensor_types, vec![api::SensorType::Co2, api::SensorType::Temperature]);
    assert_eq!(api::SensorType::Airpressure.as_str(), "airpressure");
    assert_eq!(api::SensorType::Co2.as_str(), "co2");
}

#[test]
fn repository_sensor_type_names() {
    for t in [T::Temperature, T::Humidity, T::Airpressure, T::Co2, T::BatteryVoltage, T::ChipTemperature] {
        assert_eq!(T::from_name(t.as_str()), Some(t));
    }
    assert_eq!(T::LightIntensity.as_str(), "lightintensity");
    assert_eq!(T::from_name("lightintensity"), None);
    assert_eq!(T::BatteryVoltage.as_str(), "BatteryVoltage");
    assert_eq!(T::from_name("batteryvoltage"), None);
    assert_eq!(
        sensor_type_names(&vec![T::Co2, T::Humidity]),
        vec!["co2".to_string(), "humidity".to_string()]
    );
}

#[test]
fn repository_sensor_constructors() {
    let s = repository::Sensor::new("r", "n", vec![repository::SensorType::Co2]);
    assert_eq!(s.sensor_id, 0);
    let s = repository::Sensor::new_with_id(7, "r", "n", vec![]);
    assert_eq!(s.sensor_id, 7);
    assert_eq!(s.sensor_reference, "r");
    assert_eq!(s.sensor_name, "n");
}

#[test]
fn measurement_constructors_and_rounding() {
    let v = dec("21.5");
    let t = Temperature::new(v, 1000);
    assert_eq!((t.temperature_id, t.sensor_id), (-1, -1));
    assert_eq!(<Temperature as DBSimpleMeasurement>::rounding_places(), 3);
    assert_eq!(<Humidity as DBSimpleMeasurement>::rounding_places(), 3);
    assert_eq!(<AirPressure as DBSimpleMeasurement>::rounding_places(), 3);
    assert_eq!(<LightIntensity as DBSimpleMeasurement>::rounding_places(), 9);
    assert_eq!(<ChipTemperature as DBSimpleMeasurement>::rounding_places(), 3);
    assert_eq!(<BatteryVoltage as DBSimpleMeasurement>::rounding_places(), 6);
    assert_eq!(<SimpleMeasurement as DBSimpleMeasurement>::rounding_places(), 18);
    let h = <Humidity as DBSimpleMeasurement>::new(v, 5);
    assert_eq!(*h.measurement(), v);
    assert_eq!(h.measure_time(), 5);
    let cols = measurement_columns(&vec![Temperature::new(v, 1), Temperature::new(dec("3"), 2)]);
    assert_eq!(cols.0, vec![v, dec("3")]);
    assert_eq!(cols.1, vec![1, 2]);
}

#[test]
fn sql_texts() {
    let q = select_in_timerange_sql(MeasureTable::Humidities);
    assert!(q.starts_with("SELECT m.humidity_percent\n         as measurement"));
    assert!(q.contains("LEFT JOIN \n        humidities\n         m ON s.sensor_id = m.sensor_id"));
    let q = select_min_max_sql(MeasureTable::ChipTemperatures);
    assert!(q.contains("FROM \n        chip_temperatures\n         t WHERE t.sensor_id = $1"));
    let q = select_avg_intervals_sql(MeasureTable::BatteryVoltages);
    assert!(q.contains("avg(m.battery_volt\n        ) avg_measurement\n        FROM battery_voltages\n         m"));
}

#[test]
fn interval_plans() {
    assert_eq!(plan_interval_query(0, 1000, 0), Err(IntervalQueryError::ZeroInterval));
    // start and end are microseconds, the interval milliseconds
    assert_eq!(plan_interval_query(0, 10_000_000_000, 1000), Ok(1_000_000));
    assert_eq!(
        plan_interval_query(0, 10_001_000_000, 1000),
        Err(IntervalQueryError::TooManyIntervals(10_001))
    );
    // whole milliseconds of the range: 10_000_999_999 us is 10_000_999 ms
    assert_eq!(plan_interval_query(0, 10_000_999_999, 1000), Ok(1_000_000));
    assert_eq!(plan_interval_query(5_000_000, 0, -1000), Ok(-1_000_000));
    assert_eq!(plan_interval_query(0, 1, 9_223_372_036_854), Ok(9_223_372_036_854_000));
}

#[test]
fn clamping_to_entries() {
    let b = MinTsMaxTs { min_ts: Some(100), max_ts: Some(200) };
    assert_eq!(clamp_to_entries(50, 300, &b), Ok((100, 200)));
    assert_eq!(clamp_to_entries(150, 160, &b), Ok((150, 160)));
    let none = MinTsMaxTs { min_ts: None, max_ts: None };
    assert_eq!(clamp_to_entries(1, 2, &none), Err(IntervalQueryError::NoEntries));
}

#[test]
fn decimal_arithmetic() {
    assert_eq!(pow10_i128(0), 1);
    assert_eq!(pow10_i128(18), 1_000_000_000_000_000_000);
    let a = dec("32.000");
    assert!(a.ge_int(32));
    assert!(!a.ge_int(33));
    assert!(a.le_int(32));
    let tiny = Decimal { mantissa: 1, scale: 50 };
    assert!(tiny.ge_int(0));
    assert!(!tiny.ge_int(1));
    assert!(tiny.le_int(1));
    assert!(!Decimal { mantissa: -1, scale: 50 }.ge_int(0));
    assert!(Decimal { mantissa: i128::MAX, scale: 0 }.ge_int(i32::MAX));
    assert!(!Decimal { mantissa: 5, scale: 38 }.le_int(-1));
    assert!(Decimal { mantissa: 10, scale: 1 }.le_int(1) && Decimal { mantissa: 10, scale: 1 }.ge_int(1));
    let body = high_temp_warning_email(&dec("21.50")).body;
    assert!(body.contains("<h1>Temperatur: 21.50 Grad Celsius</h1>"));
    let body = low_temp_warning_email(&Decimal { mantissa: -5, scale: 1 }).body;
    assert!(body.contains("<h1>Temperatur: -0.5 Grad Celsius</h1>"));
}

#[test]
fn conversions_between_messages_and_records() {
    let s = wire::Sensor {
        reference: "r".to_string(),
        name: "n".to_string(),
        sensor_types: vec![wire::SensorType::LightIntensity, wire::SensorType::Co2],
    };
    let stored: repository::Sensor = (&s).model_into();
    assert_eq!(stored.sensor_id, 0);
    assert_eq!(
        stored.sensor_types,
        vec![repository::SensorType::LightIntensity, repository::SensorType::Co2]
    );
    let back: wire::Sensor = wire::Sensor::model_from(&stored);
    assert_eq!(back.reference, "r");
    assert_eq!(back.sensor_types, s.sensor_types);

    let m = wire::SensorSingleSimpleMeasure {
        sensor_reference: "r".to_string(),
        measure: wire::SimpleMeasurement { measurement: dec("1.5"), measure_time: 42 },
    };
    let (r, t): (String, Temperature) = (&m).model_into();
    assert_eq!(r, "r");
    assert_eq!(t.temp_celsius, dec("1.5"));
    assert_eq!(t.measure_time, 42);
    let back: wire::SimpleMeasurement = t.model_into();
    assert_eq!(back.measurement, dec("1.5"));

    let all = wire::SensorSimpleMeasurements {
        sensor_reference: "x".to_string(),
        measurements: vec![
            wire::SimpleMeasurement { measurement: dec("1"), measure_time: 1 },
            wire::SimpleMeasurement { measurement: dec("2"), measure_time: 2 },
        ],
    };
    let stored: (String, Vec<Humidity>) = (&all).model_into();
    assert_eq!(stored.1.len(), 2);
    let back = wire::SensorSimpleMeasurements::model_from(stored);
    assert_eq!(back.sensor_reference, "x");
    assert_eq!(back.measurements[1].measure_time, 2);

    let co2 = wire::SensorSingleCo2Measure {
        sensor_reference: "c".to_string(),
        co2_measure: wire::Co2Measurement {
            co2_ppm: dec("400"),
            res0: dec("1.2"),
            adc_val: 1234,
            measure_time: 9,
        },
    };
    let (r, c): (String, repository::Co2) = (&co2).model_into();
    assert_eq!((r.as_str(), c.co2_id, c.sensor_id, c.adc_val_12bit), ("c", -1, -1, 1234));
    let back = wire::Co2Measurement::model_from(c);
    assert_eq!(back.co2_ppm, dec("400"));

    let e = wire::SensorError {
        sensor_reference: "e".to_string(),
        error: wire::Error {
            error_code: wire::ErrorCode::from_code(3),
            error_text: "bad".to_string(),
            error_time: 11,
        },
    };
    let (r, se): (String, repository::SensorError) = (&e).model_into();
    assert_eq!((r.as_str(), se.error_code, se.error_text.as_str()), ("e", 3, "bad"));
    let back = wire::Error::model_from(se);
    assert_eq!(back.error_code.get_code(), 3);
}

#[test]
fn wire_sensor_type_names() {
    assert_eq!(wire::SensorType::from_name("Temperature"), Some(wire::SensorType::Temperature));
    assert_eq!(wire::SensorType::from_name("Co2"), Some(wire::SensorType::Co2));
    assert_eq!(wire::SensorType::from_name("co2"), None);
}

fn config(conn: &str) -> Config {
    Config {
        http_service: HttpServiceConfig { host: "h".into(), port: 1, cors_hosts: vec![] },
        database: DBConfig { connection_string: conn.into() },
        mqtt: MQTTConfig {
            broker_id: "b".into(),
            host: "h".into(),
            port: 2,
            username: "u".into(),
            passw: "p".into(),
        },
        email: EmailConfig {
            smtp_server: "s".into(),
            smtp_user: "u".into(),
            smtp_passw: "p".into(),
            author_name: "a".into(),
            from_address: "a@b.c".into(),
            to_addresses: vec![],
        },
        logging: LoggingConfig { log_level: None, file: None },
    }
}

#[test]
fn connection_string_choice() {
    let c = config("postgres://cfg");
    assert_eq!(c.get_db_connect_string(), "postgres://cfg");
    assert_eq!(get_database_connection_string(&c, None), "postgres://cfg");
    assert_eq!(get_database_connection_string(&c, Some(String::new())), "postgres://cfg");
    assert_eq!(get_database_connection_string(&c, Some("postgres://env".into())), "postgres://env");
}

#[test]
fn log_levels() {
    assert_eq!(LogLevelFilter::Off.to_log_level_filter(), log::LevelFilter::Off);
    assert_eq!(LogLevelFilter::Warn.to_log_level_filter(), log::LevelFilter::Warn);
    assert_eq!(LogLevelFilter::Trace.to_log_level_filter(), log::LevelFilter::Trace);
}

#[test]
fn database_labels_round_trip() {
    let all = [
        T::Temperature,
        T::Humidity,
        T::Airpressure,
        T::LightIntensity,
        T::Co2,
        T::BatteryVoltage,
        T::ChipTemperature,
    ];
    for t in all {
        assert_eq!(T::from_label(t.label()), Some(t));
    }
    assert_eq!(T::BatteryVoltage.label(), "batteryvoltage");
    assert_eq!(T::ChipTemperature.label(), "chiptemperature");
    assert_eq!(T::from_label("BatteryVoltage"), None);
    assert_eq!(
        sensor_type_labels(&vec![T::LightIntensity, T::BatteryVoltage]),
        vec!["lightintensity".to_string(), "batteryvoltage".to_string()]
    );
}

#[test]
fn averaging_tables_per_kind() {
    assert_eq!(measure_table_for(T::Temperature), Some(MeasureTable::Temperatures));
    assert_eq!(measure_table_for(T::Humidity), Some(MeasureTable::Humidities));
    assert_eq!(measure_table_for(T::Airpressure), Some(MeasureTable::AirPressures));
    assert_eq!(measure_table_for(T::LightIntensity), Some(MeasureTable::LightIntensities));
    assert_eq!(measure_table_for(T::BatteryVoltage), Some(MeasureTable::BatteryVoltages));
    assert_eq!(measure_table_for(T::ChipTemperature), Some(MeasureTable::ChipTemperatures));
    assert_eq!(measure_table_for(T::Co2), None);
}

#[test]
fn a_value_converts_to_itself() {
    let code: i32 = 7i32.model_into();
    assert_eq!(code, 7);
    let name: String = <String as ModelFrom<String>>::model_from("n".to_string());
    assert_eq!(name, "n");
}
