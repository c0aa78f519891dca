use bigdecimal::BigDecimal;
use sensor_data_server::config::EmailConfig;
use sensor_data_server::decimal::{Decimal, DecimalDifference};
use sensor_data_server::email::{
    create_email_message, high_chip_temp_warning_email, low_batt_voltage_warning_email,
    server_started_email, EmailError, SERVER_STARTED_TEXT,
};
use sensor_data_server::error::DateRangeError;
use sensor_data_server::http_server::{
    index_greeting, interval_range_request, sensor_added_message, sensor_name_filter,
    temperature_range_request, IntervalRequestError,
};
use sensor_data_server::service::{
    battery_voltage_alert, chip_temperature_alert, classify_temperature,
    temperature_warning_email, PreviousTemperature, TempStatus,
};
use sensor_data_server::timestamp::{
    MAX_TIMESTAMP_MICROS, MAX_TIMESTAMP_SECS, MIN_TIMESTAMP_MICROS, MIN_TIMESTAMP_SECS,
};
use sensor_data_server::wire;
use sensor_data_server::mqtt_handler::StoreAction as A;
use sensor_data_server::service::{
    measurement_not_added_message, measurements_not_added_message,
    measurements_not_fetched_message, sensor_not_found_for_query_message,
    sensor_not_found_message, sensor_not_inserted_message, store_failure_is_logged,
};
use std::str::FromStr;

fn dec(s: &str) -> Decimal {
    let (m, scale) = BigDecimal::from_str(s).unwrap().as_bigint_and_exponent();
    Decimal { mantissa: i128::try_from(m).unwrap(), scale: scale as u32 }
}

fn prev(t: &str, time: i128) -> Option<PreviousTemperature> {
    Some(PreviousTemperature { temp_celsius: dec(t), measure_time: time })
}

#[test]
fn first_reading_thresholds() {
    assert_eq!(classify_temperature(&dec("32"), None, 0), TempStatus::HighTemp);
    assert_eq!(classify_temperature(&dec("31.999"), None, 0), TempStatus::NormalTemp);
    assert_eq!(classify_temperature(&dec("3.0"), None, 0), TempStatus::LowTemp);
    assert_eq!(classify_temperature(&dec("-4"), None, 0), TempStatus::LowTemp);
}

#[test]
fn repeated_warnings_are_silenced_within_30_minutes() {
    let now: i128 = 10_000_000_000_000;
    // previous high reading 30 minutes ago: no new high warning
    let s = classify_temperature(&dec("35"), prev("33", now - 1_800_000_000_000), now);
    assert_ne!(s, TempStatus::HighTemp);
    // previous high reading 30 minutes and 1 ns ago: warning again
    assert_eq!(
        classify_temperature(&dec("35"), prev("33", now - 1_800_000_000_001), now),
        TempStatus::HighTemp
    );
    // a previous reading in the far past or future does not overflow
    assert_ne!(classify_temperature(&dec("35"), prev("33", i128::MAX), i128::MIN), TempStatus::HighTemp);
    assert_eq!(classify_temperature(&dec("35"), prev("33", i128::MIN), i128::MAX), TempStatus::HighTemp);
    // previous cool reading: warning
    assert_eq!(classify_temperature(&dec("35"), prev("20", now - 1000), now), TempStatus::HighTemp);
}

#[test]
fn changes_against_previous_reading() {
    let now: i128 = 5_000_000_000_000;
    match classify_temperature(&dec("25.5"), prev("10.25", now - 1000), now) {
        TempStatus::StrongTempIncrease { prev_temp, diff_temp } => {
            assert_eq!(prev_temp, dec("10.25"));
            assert_eq!(diff_temp, DecimalDifference { minuend: dec("25.5"), subtrahend: dec("10.25") });
        }
        _ => panic!("expected a strong increase"),
    }
    // Any change below 10 degrees counts as a decrease.
    match classify_temperature(&dec("20"), prev("19", now - 1000), now) {
        TempStatus::StrongTempDecrease { diff_temp, .. } => {
            assert_eq!(diff_temp, DecimalDifference { minuend: dec("20"), subtrahend: dec("19") })
        }
        _ => panic!("expected a decrease"),
    }
}

#[test]
fn chip_and_battery_alerts() {
    assert!(chip_temperature_alert(&dec("60")));
    assert!(!chip_temperature_alert(&dec("59.99")));
    assert!(battery_voltage_alert(&dec("1.000")));
    assert!(!battery_voltage_alert(&dec("1.001")));
}

#[test]
fn warning_emails() {
    let m = low_batt_voltage_warning_email(&dec("0.95"));
    assert_eq!(m.subject, "Niedrige Batteriespannung");
    assert!(m.body.contains("<h1>Batteriespannung: 0.95 Volt</h1>"));
    let m = high_chip_temp_warning_email(&dec("61.5"));
    assert_eq!(m.subject, "Hohe Prozessortemperatur");
    assert!(m.body.contains("<h1>Temperatur: 61.5 Grad Celsius</h1>"));
    let m = server_started_email();
    assert_eq!(m.subject, "Server wurde gestartet");
    assert_eq!(m.body, SERVER_STARTED_TEXT);
    assert!(m.body.contains("Schildkröten-Überwachungserver"));
    let m = temperature_warning_email(&TempStatus::HighTemp, &dec("33")).unwrap();
    assert_eq!(m.subject, "Hohe Temperatur");
    let m = temperature_warning_email(&TempStatus::LowTemp, &dec("2")).unwrap();
    assert_eq!(m.subject, "Niedrige Temperatur");
    assert!(temperature_warning_email(&TempStatus::NormalTemp, &dec("2")).is_none());
}

fn email_conf(from: &str, to: Vec<&str>) -> EmailConfig {
    EmailConfig {
        smtp_server: "smtp.example.org".into(),
        smtp_user: "user".into(),
        smtp_passw: "pw".into(),
        author_name: "Server".into(),
        from_address: from.into(),
        to_addresses: to.into_iter().map(String::from).collect(),
    }
}

#[test]
fn email_messages() {
    let m = create_email_message(&email_conf("a@b.org", vec!["c@d.org"]), "body".into(), "subj").unwrap();
    assert_eq!(m.to_addresses, vec!["c@d.org".to_string()]);
    assert_eq!((m.subject.as_str(), m.html_body.as_str()), ("subj", "body"));
    assert_eq!(
        create_email_message(&email_conf("nope", vec!["c@d.org"]), "b".into(), "s").err(),
        Some(EmailError::InvalidFromAddress)
    );
    assert_eq!(
        create_email_message(&email_conf("a@b.org", vec!["c@d.org", "bad", "x"]), "b".into(), "s").err(),
        Some(EmailError::InvalidToAddress(1))
    );
    assert_eq!(
        create_email_message(&email_conf("a@b.org", vec![]), "b".into(), "s").err(),
        Some(EmailError::MissingTo)
    );
}

#[test]
fn chrono_range_bounds() {
    let instants = |start: i64, end: i64| {
        temperature_range_request("r".into(), start, end).ok().map(|q| (q.start_datetime, q.end_datetime))
    };
    assert_eq!(instants(0, 0), Some((0, 0)));
    assert_eq!(
        instants(MIN_TIMESTAMP_SECS, MAX_TIMESTAMP_SECS),
        Some((MIN_TIMESTAMP_SECS * 1_000_000, MAX_TIMESTAMP_SECS * 1_000_000))
    );
    assert_eq!(instants(MIN_TIMESTAMP_SECS - 1, 0), None);
    assert_eq!(instants(0, MAX_TIMESTAMP_SECS + 1), None);
    assert!(chrono::DateTime::from_timestamp_micros(MIN_TIMESTAMP_MICROS).is_some());
    assert!(chrono::DateTime::from_timestamp_micros(MIN_TIMESTAMP_MICROS - 1).is_none());
    assert!(chrono::DateTime::from_timestamp_micros(MAX_TIMESTAMP_MICROS).is_some());
    assert!(chrono::DateTime::from_timestamp_micros(MAX_TIMESTAMP_MICROS + 1).is_none());
    let e = DateRangeError::from_range(Some(947638923004000), Some(0));
    assert!(e.message().contains("value='2000-01-12 01:02:03.004 UTC'"));
    let e = DateRangeError::from_range(Some(947638923004005), Some(0));
    assert!(e.message().contains("value='2000-01-12 01:02:03.004005 UTC'"));
}

#[test]
fn date_range_errors() {
    let e = DateRangeError::from_range(None, Some(0));
    assert_eq!(e.message(), "Invalid date range was supplied.\nStart date is invalid;\n");
    let e = DateRangeError::from_range(None, None);
    assert_eq!(
        e.message(),
        "Invalid date range was supplied.\nStart date is invalid;\nEnd date is invalid;\n"
    );
    let e = DateRangeError::from_range(Some(1_000_000), Some(0));
    assert_eq!(
        e.message(),
        "Invalid date range was supplied.\nStart date with value='1970-01-01 00:00:01 UTC' is after\n                        end date with value='1970-01-01 00:00:00 UTC';\n"
    );
    let e = DateRangeError::from_range(Some(0), Some(1_000_000));
    assert_eq!(e.message(), "Invalid date range was supplied.\n");
}

#[test]
fn http_texts_and_requests() {
    assert_eq!(index_greeting("Schili Sensor Server"), "Hello Schili Sensor Server!");
    assert_eq!(sensor_added_message("r1", "Garden"), "Added sensor with reference='r1' and name='Garden'.");
    assert_eq!(sensor_name_filter("gar"), "%gar%");
    let q = temperature_range_request("r".into(), 10, 20).ok().unwrap();
    assert_eq!((q.start_datetime, q.end_datetime), (10_000_000, 20_000_000));
    let e = temperature_range_request("r".into(), i64::MAX, 20).err().unwrap();
    assert_eq!(e.message(), "Invalid date range was supplied.\nStart date is invalid;\n");
    match interval_range_request("Humidity", "r".into(), 0, 60, 1000) {
        Ok((t, q)) => {
            assert_eq!(t, wire::SensorType::Humidity);
            assert_eq!(q.interval, 1000);
            assert_eq!(q.end_datetime, 60_000_000);
        }
        Err(_) => panic!("expected a request"),
    }
    match interval_range_request("Wind", "r".into(), 0, 60, 1000) {
        Err(IntervalRequestError::UnknownMeasurementKind(m)) => {
            assert_eq!(m, "Measurement kind does not exist: Wind")
        }
        _ => panic!("expected an unknown kind"),
    }
    match interval_range_request("Wind", "r".into(), 0, 60, i64::MIN) {
        Err(IntervalRequestError::UnknownMeasurementKind(m)) => {
            assert_eq!(m, "Measurement kind does not exist: Wind")
        }
        _ => panic!("expected an unknown kind"),
    }
    match interval_range_request("Co2", "r".into(), 0, i64::MIN, 1000) {
        Err(IntervalRequestError::DateRange(e)) => {
            assert_eq!(e.message(), "Invalid date range was supplied.\nEnd date is invalid;\n")
        }
        _ => panic!("expected a date range error"),
    }
}

#[test]
fn differences_beyond_i128_are_exact() {
    // 4.0 written with 37 decimals after -20.000: the difference 24 has
    // digits beyond i128 at scale 37 and is still a strong increase.
    let cur = Decimal { mantissa: 4 * 10i128.pow(37), scale: 37 };
    let previous = Some(PreviousTemperature { temp_celsius: dec("-20.000"), measure_time: 0 });
    let status = classify_temperature(&cur, previous, 0);
    assert_eq!(
        status,
        TempStatus::StrongTempIncrease {
            prev_temp: dec("-20.000"),
            diff_temp: DecimalDifference { minuend: cur, subtrahend: dec("-20.000") },
        }
    );
    let m = temperature_warning_email(&status, &cur).unwrap();
    assert_eq!(m.subject, "Starker Temperaturanstieg");
    let expected = format!("<h1>Differenz: 24.{} Grad Celsius</h1>", "0".repeat(37));
    assert!(m.body.contains(&expected));
    assert!(m.body.contains("<h1>Vorherige Temperatur: -20.000 Grad Celsius</h1>"));
    // After a tiny previous reading at 40 decimals: 20 rises by just under
    // 20 degrees, 5 by just under 5.
    let tiny = Some(PreviousTemperature { temp_celsius: Decimal { mantissa: 1, scale: 40 }, measure_time: 0 });
    match classify_temperature(&dec("20"), tiny, 0) {
        TempStatus::StrongTempIncrease { .. } => {}
        other => panic!("expected an increase, got {other:?}"),
    }
    match classify_temperature(&dec("5"), tiny, 0) {
        TempStatus::StrongTempDecrease { diff_temp, .. } => {
            let m = temperature_warning_email(&classify_temperature(&dec("5"), tiny, 0), &dec("5")).unwrap();
            assert_eq!(diff_temp.subtrahend, Decimal { mantissa: 1, scale: 40 });
            let expected = format!("<h1>Differenz: 4.{}9 Grad Celsius</h1>", "9".repeat(39));
            assert!(m.body.contains(&expected));
        }
        other => panic!("expected a decrease, got {other:?}"),
    }
    // 40 after it is high.
    assert_eq!(classify_temperature(&dec("40"), tiny, 0), TempStatus::HighTemp);
}

#[test]
fn strong_changes_are_reported() {
    let now: i128 = 5_000_000_000_000;
    let cur = dec("25.5");
    let status = classify_temperature(&cur, prev("10.25", now - 1000), now);
    let m = temperature_warning_email(&status, &cur).unwrap();
    assert_eq!(m.subject, "Starker Temperaturanstieg");
    assert!(m.body.contains("<h1>Temperatur: 25.5 Grad Celsius</h1>"));
    assert!(m.body.contains("<h1>Vorherige Temperatur: 10.25 Grad Celsius</h1>"));
    assert!(m.body.contains("<h1>Differenz: 15.25 Grad Celsius</h1>"));
    let cur = dec("20");
    let status = classify_temperature(&cur, prev("19", now - 1000), now);
    let m = temperature_warning_email(&status, &cur).unwrap();
    assert_eq!(m.subject, "Starker Temperaturabfall");
    assert!(m.body.contains("<h1>Vorherige Temperatur: 19 Grad Celsius</h1>"));
    assert!(m.body.contains("<h1>Differenz: 1 Grad Celsius</h1>"));
}

#[test]
fn store_failure_policy_and_messages() {
    for a in [A::Humidity, A::AirPressure, A::ChipTemperature, A::BatteryVoltage] {
        assert!(store_failure_is_logged(a));
    }
    for a in [A::Temperature, A::Co2, A::BundledMeasurements, A::SensorError] {
        assert!(!store_failure_is_logged(a));
    }
    assert_eq!(sensor_not_found_message("r1"), "Could not find sensor by reference='r1'.");
    assert_eq!(sensor_not_found_for_query_message("r1"), "Sensor with reference='r1' could not be found.");
    assert_eq!(sensor_not_inserted_message("r1"), "Sensor with reference='r1' could not be inserted.");
    assert_eq!(
        measurement_not_added_message("air pressure", "r1"),
        "Could not add air pressure measurement for sensor with reference='r1'."
    );
    assert_eq!(
        measurements_not_added_message("humidity", "r1"),
        "Could not add humidity measurements for sensor with reference='r1'."
    );
    assert_eq!(
        measurements_not_fetched_message("temperature", "r1"),
        "Error fetching temperature measurements for sensor with reference='r1'."
    );
}
