//! UTC calendar fields of a recording timestamp.
//!
//! Recordings are filed under a year/month directory derived from the
//! recording's start time. The Gregorian calendar arithmetic itself is done
//! by the `chrono` crate; this module names its results and states only what
//! chrono's documentation gives.

use chrono::Datelike;
use vstd::prelude::*;

verus! {

/// Millisecond timestamp of the last instant of year 9999 UTC. Timestamps
/// between zero and this value are well inside the range that `chrono`
/// documents as representable.
pub const MAX_TIMESTAMP_MILLIS: i64 = 253_402_300_799_999;

/// The UTC calendar year of a millisecond timestamp.
pub uninterp spec fn utc_year_of(ts_millis: i64) -> int;

/// The UTC calendar month, 1 through 12, of a millisecond timestamp.
pub uninterp spec fn utc_month_of(ts_millis: i64) -> int;

/// Relies on `chrono::DateTime::<Utc>::from_timestamp_millis` (documented to
/// return `Some` for every in-range timestamp) and `chrono::Datelike::year`.
/// The year is a function of the timestamp alone; a timestamp of zero is
/// 1970-01-01 UTC and the bound of `MAX_TIMESTAMP_MILLIS` is the end of year
/// 9999, so the year lies between the two.
#[verifier::external_body]
pub fn utc_year(ts_millis: i64) -> (y: i32)
    requires
        0 <= ts_millis <= MAX_TIMESTAMP_MILLIS,
    ensures
        y == utc_year_of(ts_millis),
        1970 <= y <= 9999,
{
    match chrono::DateTime::from_timestamp_millis(ts_millis) {
        Some(dt) => dt.year(),
        None => 0,
    }
}

/// Relies on `chrono::DateTime::<Utc>::from_timestamp_millis` (documented to
/// return `Some` for every in-range timestamp) and `chrono::Datelike::month`,
/// whose result chrono documents to range from 1 to 12. The month is a
/// function of the timestamp alone.
#[verifier::external_body]
pub fn utc_month(ts_millis: i64) -> (m: u32)
    requires
        0 <= ts_millis <= MAX_TIMESTAMP_MILLIS,
    ensures
        m == utc_month_of(ts_millis),
        1 <= m <= 12,
{
    match chrono::DateTime::from_timestamp_millis(ts_millis) {
        Some(dt) => dt.month(),
        None => 0,
    }
}

} // verus!
