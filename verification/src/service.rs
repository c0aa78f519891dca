//! Alerting rules applied to incoming readings before they are stored.
use vstd::prelude::*;
use crate::decimal::{Decimal, DecimalDifference, difference_at_least, difference_at_most, pow10};
use crate::mqtt_handler::StoreAction;
use crate::email::{
    EmailContent, HIGH_TEMP_SUBJECT, HIGH_TEMP_TEXT_1, LOW_TEMP_SUBJECT, LOW_TEMP_TEXT_1,
    STRONG_DECREASE_SUBJECT, STRONG_DECREASE_TEXT_1, STRONG_INCREASE_SUBJECT,
    STRONG_INCREASE_TEXT_1, TEMP_TEXT_2, decimal_display, high_temp_warning_email,
    low_temp_warning_email, strong_change_body, strong_temp_decrease_warning_email,
    strong_temp_increase_warning_email,
};

verus! {

/// A temperature at or above this many degrees Celsius is high.
pub const HIGH_TEMP_CELSIUS: i32 = 32;

/// A temperature at or below this many degrees Celsius is low.
pub const LOW_TEMP_CELSIUS: i32 = 3;

/// Change in degrees Celsius from the previous reading that counts as strong.
pub const TEMP_CHANGE_WARNING: i32 = 10;

/// A previous reading within this many nanoseconds silences a repeated
/// high or low temperature warning (30 minutes).
pub const WARNING_SILENCE_NANOS: i128 = 1_800_000_000_000;

/// A chip temperature at or above this many degrees Celsius is high.
pub const HIGH_CHIP_TEMP_CELSIUS: i32 = 60;

/// A battery voltage at or below this many volts is low.
pub const LOW_BATTERY_VOLT: i32 = 1;

/// Status of a new temperature reading.
#[derive(Debug, PartialEq, Eq, Structural, Clone, Copy)]
pub enum TempStatus {
    HighTemp,
    LowTemp,
    StrongTempIncrease { prev_temp: Decimal, diff_temp: DecimalDifference },
    StrongTempDecrease { prev_temp: Decimal, diff_temp: DecimalDifference },
    NormalTemp,
}

/// The latest earlier temperature reading of a sensor.
#[derive(Debug, PartialEq, Eq, Structural, Clone, Copy)]
pub struct PreviousTemperature {
    pub temp_celsius: Decimal,
    /// Nanoseconds since the Unix epoch (UTC).
    pub measure_time: i128,
}

/// The previous reading was taken at most 30 minutes before `now`
/// (nanoseconds since the Unix epoch).
pub open spec fn spec_is_recent(prev: PreviousTemperature, now: i128) -> bool {
    now - prev.measure_time <= WARNING_SILENCE_NANOS
}

/// Whether the previous reading was taken at most 30 minutes before `now`.
pub fn is_recent(prev: &PreviousTemperature, now: i128) -> (r: bool)
    ensures
        r == spec_is_recent(*prev, now),
{
    let m = prev.measure_time;
    if m > 0 && now < i128::MIN + m {
        true
    } else if m < 0 && now > i128::MAX + m {
        false
    } else {
        now - m <= WARNING_SILENCE_NANOS
    }
}

/// Status of the reading `cur` taken at `now`, given the previous reading.
/// A high (low) warning is not repeated when the previous reading, taken
/// within 30 minutes, was already at or above 32 (at or above 3) degrees.
pub open spec fn spec_classify_temperature(
    cur: Decimal,
    previous: Option<PreviousTemperature>,
    now: i128,
) -> TempStatus {
    match previous {
        Some(prev) => {
            let recent = spec_is_recent(prev, now);
            if cur.spec_ge_int(HIGH_TEMP_CELSIUS as int) && !(prev.temp_celsius.spec_ge_int(
                HIGH_TEMP_CELSIUS as int,
            ) && recent) {
                TempStatus::HighTemp
            } else if cur.spec_le_int(LOW_TEMP_CELSIUS as int) && !(prev.temp_celsius.spec_ge_int(
                LOW_TEMP_CELSIUS as int,
            ) && recent) {
                TempStatus::LowTemp
            } else {
                let diff = DecimalDifference { minuend: cur, subtrahend: prev.temp_celsius };
                if diff.spec_ge_int(TEMP_CHANGE_WARNING as int) {
                    TempStatus::StrongTempIncrease { prev_temp: prev.temp_celsius, diff_temp: diff }
                } else if diff.spec_le_int(TEMP_CHANGE_WARNING as int) {
                    TempStatus::StrongTempDecrease { prev_temp: prev.temp_celsius, diff_temp: diff }
                } else {
                    TempStatus::NormalTemp
                }
            }
        },
        None => {
            if cur.spec_ge_int(HIGH_TEMP_CELSIUS as int) {
                TempStatus::HighTemp
            } else if cur.spec_le_int(LOW_TEMP_CELSIUS as int) {
                TempStatus::LowTemp
            } else {
                TempStatus::NormalTemp
            }
        },
    }
}

/// Neither the high nor the low warning applies to `cur` after `prev`:
/// the status then depends on the difference between the two readings.
pub open spec fn needs_difference(cur: Decimal, prev: PreviousTemperature, now: i128) -> bool {
    let recent = spec_is_recent(prev, now);
    &&& !(cur.spec_ge_int(HIGH_TEMP_CELSIUS as int) && !(prev.temp_celsius.spec_ge_int(
        HIGH_TEMP_CELSIUS as int,
    ) && recent))
    &&& !(cur.spec_le_int(LOW_TEMP_CELSIUS as int) && !(prev.temp_celsius.spec_ge_int(
        LOW_TEMP_CELSIUS as int,
    ) && recent))
}

/// Classifies a new temperature reading against the previous one.
pub fn classify_temperature(
    cur: &Decimal,
    previous: Option<PreviousTemperature>,
    now: i128,
) -> (r: TempStatus)
    ensures
        r == spec_classify_temperature(*cur, previous, now),
{
    match previous {
        Some(prev) => {
            let recent = is_recent(&prev, now);
            let prev_temp = prev.temp_celsius;
            if cur.ge_int(HIGH_TEMP_CELSIUS) && !(prev_temp.ge_int(HIGH_TEMP_CELSIUS) && recent) {
                TempStatus::HighTemp
            } else if cur.le_int(LOW_TEMP_CELSIUS) && !(prev_temp.ge_int(LOW_TEMP_CELSIUS)
                && recent) {
                TempStatus::LowTemp
            } else {
                let diff = DecimalDifference { minuend: *cur, subtrahend: prev_temp };
                if difference_at_least(&diff, TEMP_CHANGE_WARNING) {
                    TempStatus::StrongTempIncrease { prev_temp, diff_temp: diff }
                } else if difference_at_most(&diff, TEMP_CHANGE_WARNING) {
                    TempStatus::StrongTempDecrease { prev_temp, diff_temp: diff }
                } else {
                    TempStatus::NormalTemp
                }
            }
        },
        None => {
            if cur.ge_int(HIGH_TEMP_CELSIUS) {
                TempStatus::HighTemp
            } else if cur.le_int(LOW_TEMP_CELSIUS) {
                TempStatus::LowTemp
            } else {
                TempStatus::NormalTemp
            }
        },
    }
}

/// Whether a chip temperature reading calls for a warning (at least 60
/// degrees Celsius).
pub fn chip_temperature_alert(temp_celsius: &Decimal) -> (r: bool)
    ensures
        r == temp_celsius.spec_ge_int(HIGH_CHIP_TEMP_CELSIUS as int),
{
    temp_celsius.ge_int(HIGH_CHIP_TEMP_CELSIUS)
}

/// Whether a battery voltage reading calls for a warning (at most 1 volt).
pub fn battery_voltage_alert(volt: &Decimal) -> (r: bool)
    ensures
        r == volt.spec_le_int(LOW_BATTERY_VOLT as int),
{
    volt.le_int(LOW_BATTERY_VOLT)
}

/// With a previous reading, the status is never `NormalTemp`: a change
/// that is not a strong increase counts as a strong decrease.
pub proof fn law_previous_reading_never_normal(
    cur: Decimal,
    prev: PreviousTemperature,
    now: i128,
)
    ensures
        spec_classify_temperature(cur, Some(prev), now) != TempStatus::NormalTemp,
{
}

/// Without a previous reading, a temperature of at least 32 degrees is high
/// and one of at most 3 degrees is low.
pub proof fn law_first_reading_thresholds(cur: Decimal, now: i128)
    ensures
        cur.spec_ge_int(32) ==> spec_classify_temperature(cur, None, now) == TempStatus::HighTemp,
        !cur.spec_ge_int(32) && cur.spec_le_int(3) ==> spec_classify_temperature(cur, None, now)
            == TempStatus::LowTemp,
        !cur.spec_ge_int(32) && !cur.spec_le_int(3) ==> spec_classify_temperature(cur, None, now)
            == TempStatus::NormalTemp,
{
}

/// A high temperature is reported again when the previous reading was
/// taken more than 30 minutes earlier.
pub proof fn law_high_repeats_after_silence(cur: Decimal, prev: PreviousTemperature, now: i128)
    requires
        cur.spec_ge_int(32),
        now - prev.measure_time > WARNING_SILENCE_NANOS,
    ensures
        spec_classify_temperature(cur, Some(prev), now) == TempStatus::HighTemp,
{
}

/// With a previous reading: a reading of at least 32 degrees is a high
/// warning unless the previous reading, taken at most 30 minutes earlier,
/// was at least 32 degrees too; a reading of at most 3 degrees that is no
/// high warning is a low warning unless the previous reading, taken at
/// most 30 minutes earlier, was at least 3 degrees; and such a silenced
/// cold reading is reported as a strong change, never as low.
pub proof fn law_warning_thresholds_with_previous(
    cur: Decimal,
    prev: PreviousTemperature,
    now: i128,
)
    ensures
        ({
            let recent = now - prev.measure_time <= 1_800_000_000_000;
            let hot = cur.mantissa >= 32 * pow10(cur.scale as nat);
            let cold = cur.mantissa <= 3 * pow10(cur.scale as nat);
            let p = prev.temp_celsius;
            let prev_hot = p.mantissa >= 32 * pow10(p.scale as nat);
            let prev_mild = p.mantissa >= 3 * pow10(p.scale as nat);
            let high = hot && !(prev_hot && recent);
            let status = spec_classify_temperature(cur, Some(prev), now);
            &&& high ==> status == TempStatus::HighTemp
            &&& !high && cold && !(prev_mild && recent) ==> status == TempStatus::LowTemp
            &&& !high && cold && prev_mild && recent ==> (status is StrongTempIncrease
                || status is StrongTempDecrease)
        }),
{
}

/// When neither the high nor the low warning applies, a reading at least
/// 10 degrees above the previous one is a strong increase, carrying the
/// previous reading and the exact difference; any other change is a
/// strong decrease.
pub proof fn law_strong_changes(cur: Decimal, prev: PreviousTemperature, now: i128)
    requires
        needs_difference(cur, prev, now),
    ensures
        ({
            let diff = DecimalDifference { minuend: cur, subtrahend: prev.temp_celsius };
            &&& diff.spec_ge_int(10) ==> spec_classify_temperature(cur, Some(prev), now) == (
            TempStatus::StrongTempIncrease { prev_temp: prev.temp_celsius, diff_temp: diff })
            &&& !diff.spec_ge_int(10) ==> spec_classify_temperature(cur, Some(prev), now) == (
            TempStatus::StrongTempDecrease { prev_temp: prev.temp_celsius, diff_temp: diff })
        }),
{
}

/// The warning e-mail for a temperature status, if one is sent: high and
/// low temperatures are reported with the current reading, strong changes
/// with the current and the previous reading and their difference; a
/// normal temperature sends none.
pub fn temperature_warning_email(status: &TempStatus, temp_celsius: &Decimal) -> (r: Option<
    EmailContent,
>)
    ensures
        match *status {
            TempStatus::HighTemp => r matches Some(m) && m.subject@ == HIGH_TEMP_SUBJECT@
                && m.body@ == HIGH_TEMP_TEXT_1@ + decimal_display(*temp_celsius) + TEMP_TEXT_2@,
            TempStatus::LowTemp => r matches Some(m) && m.subject@ == LOW_TEMP_SUBJECT@
                && m.body@ == LOW_TEMP_TEXT_1@ + decimal_display(*temp_celsius) + TEMP_TEXT_2@,
            TempStatus::StrongTempIncrease { prev_temp, diff_temp } => r matches Some(m)
                && m.subject@ == STRONG_INCREASE_SUBJECT@ && m.body@ == strong_change_body(
                STRONG_INCREASE_TEXT_1@,
                *temp_celsius,
                prev_temp,
                diff_temp,
            ),
            TempStatus::StrongTempDecrease { prev_temp, diff_temp } => r matches Some(m)
                && m.subject@ == STRONG_DECREASE_SUBJECT@ && m.body@ == strong_change_body(
                STRONG_DECREASE_TEXT_1@,
                *temp_celsius,
                prev_temp,
                diff_temp,
            ),
            TempStatus::NormalTemp => r is None,
        },
{
    match status {
        TempStatus::HighTemp => Some(high_temp_warning_email(temp_celsius)),
        TempStatus::LowTemp => Some(low_temp_warning_email(temp_celsius)),
        TempStatus::StrongTempIncrease { prev_temp, diff_temp } => Some(
            strong_temp_increase_warning_email(temp_celsius, prev_temp, diff_temp),
        ),
        TempStatus::StrongTempDecrease { prev_temp, diff_temp } => Some(
            strong_temp_decrease_warning_email(temp_celsius, prev_temp, diff_temp),
        ),
        TempStatus::NormalTemp => None,
    }
}

/// A single reading that cannot be stored is logged, and the reading
/// still counts as handled, for humidity, air pressure, chip temperature
/// and battery voltage; for a temperature, a CO2 reading, a bundle or an
/// error report the failure is reported to the caller.
pub fn store_failure_is_logged(action: StoreAction) -> (r: bool)
    ensures
        r <==> (action == StoreAction::Humidity || action == StoreAction::AirPressure || action
            == StoreAction::ChipTemperature || action == StoreAction::BatteryVoltage),
{
    match action {
        StoreAction::Humidity => true,
        StoreAction::AirPressure => true,
        StoreAction::ChipTemperature => true,
        StoreAction::BatteryVoltage => true,
        _ => false,
    }
}

/// The error for a reading whose sensor is not known.
pub fn sensor_not_found_message(reference: &str) -> (r: String)
    ensures
        r@ == "Could not find sensor by reference='"@ + reference@ + "'."@,
{
    let mut r = String::from_str("Could not find sensor by reference='");
    r.append(reference);
    r.append("'.");
    r
}

/// The error for a query about a sensor that is not known.
pub fn sensor_not_found_for_query_message(reference: &str) -> (r: String)
    ensures
        r@ == "Sensor with reference='"@ + reference@ + "' could not be found."@,
{
    let mut r = String::from_str("Sensor with reference='");
    r.append(reference);
    r.append("' could not be found.");
    r
}

/// The error for a sensor that could not be stored.
pub fn sensor_not_inserted_message(reference: &str) -> (r: String)
    ensures
        r@ == "Sensor with reference='"@ + reference@ + "' could not be inserted."@,
{
    let mut r = String::from_str("Sensor with reference='");
    r.append(reference);
    r.append("' could not be inserted.");
    r
}

/// The error for a reading of `measure_name` that could not be stored.
pub fn measurement_not_added_message(measure_name: &str, reference: &str) -> (r: String)
    ensures
        r@ == "Could not add "@ + measure_name@ + " measurement for sensor with reference='"@
            + reference@ + "'."@,
{
    let mut r = String::from_str("Could not add ");
    r.append(measure_name);
    r.append(" measurement for sensor with reference='");
    r.append(reference);
    r.append("'.");
    r
}

/// The error for readings of `measure_name` that could not be stored.
pub fn measurements_not_added_message(measure_name: &str, reference: &str) -> (r: String)
    ensures
        r@ == "Could not add "@ + measure_name@ + " measurements for sensor with reference='"@
            + reference@ + "'."@,
{
    let mut r = String::from_str("Could not add ");
    r.append(measure_name);
    r.append(" measurements for sensor with reference='");
    r.append(reference);
    r.append("'.");
    r
}

/// The error for readings of `measure_name` that could not be read.
pub fn measurements_not_fetched_message(measure_name: &str, reference: &str) -> (r: String)
    ensures
        r@ == "Error fetching "@ + measure_name@ + " measurements for sensor with reference='"@
            + reference@ + "'."@,
{
    let mut r = String::from_str("Error fetching ");
    r.append(measure_name);
    r.append(" measurements for sensor with reference='");
    r.append(reference);
    r.append("'.");
    r
}

} // verus!
