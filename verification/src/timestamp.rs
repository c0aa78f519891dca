//! Points in time as microseconds since the Unix epoch (UTC), within the
//! range that `chrono` represents. Microseconds are the precision of the
//! database's timestamps, and an `i64` of them spans all of `chrono`'s
//! range.
use vstd::prelude::*;

verus! {

/// Earliest second `chrono::DateTime<Utc>` represents (`DateTime::MIN_UTC`).
pub const MIN_TIMESTAMP_SECS: i64 = -8_334_601_228_800;

/// Latest second `chrono::DateTime<Utc>` represents (`DateTime::MAX_UTC`).
pub const MAX_TIMESTAMP_SECS: i64 = 8_210_266_876_799;

/// Earliest microsecond `chrono::DateTime<Utc>` represents.
pub const MIN_TIMESTAMP_MICROS: i64 = -8_334_601_228_800_000_000;

/// Latest microsecond `chrono::DateTime<Utc>` represents.
pub const MAX_TIMESTAMP_MICROS: i64 = 8_210_266_876_799_999_999;

/// `micros` names an instant that `chrono::DateTime<Utc>` represents.
pub open spec fn is_utc_micros(micros: int) -> bool {
    MIN_TIMESTAMP_MICROS <= micros <= MAX_TIMESTAMP_MICROS
}

/// `chrono::DateTime::from_timestamp(secs, 0)`, as microseconds: present
/// exactly when the second lies in the range `chrono` represents.
#[verifier::external_body]
pub(crate) fn utc_micros_from_timestamp(secs: i64) -> (r: Option<i64>)
    ensures
        r is Some <==> MIN_TIMESTAMP_SECS <= secs <= MAX_TIMESTAMP_SECS,
        r matches Some(m) ==> m == secs * 1_000_000,
{
    match chrono::DateTime::from_timestamp(secs, 0) {
        Some(d) => Some(d.timestamp_micros()),
        None => None,
    }
}

/// The text `chrono::DateTime<Utc>` displays for the instant `micros`.
pub uninterp spec fn chrono_utc_display(micros: int) -> Seq<char>;

/// Displays the instant as `chrono::DateTime<Utc>` does (`Display`), for
/// instance `2000-01-12 01:02:03.004 UTC`.
#[verifier::external_body]
pub(crate) fn utc_micros_to_string(micros: i64) -> (r: String)
    requires
        is_utc_micros(micros as int),
    ensures
        r@ == chrono_utc_display(micros as int),
{
    chrono::DateTime::from_timestamp_micros(micros).unwrap().to_string()
}

} // verus!
