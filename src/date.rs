//! Remote UTC instants and the civil dates of UTC+9 they are stored as.

use chrono::Datelike;
use vstd::prelude::*;

verus! {

/// Seconds in a day.
pub const SECS_PER_DAY: i64 = 86400;

/// The offset of the internal civil calendar from UTC, in seconds (UTC+9).
pub const LOCAL_OFFSET_SECS: i64 = 32400;

/// Days from 0001-01-01 (day 1) to 1970-01-01 in the proleptic Gregorian
/// calendar.
pub const UNIX_EPOCH_CE_DAY: i64 = 719163;

/// An instant, as whole seconds since 1970-01-01T00:00:00Z.
#[derive(Clone, Copy, Debug, PartialEq, Eq, Structural)]
pub struct Instant {
    pub secs: i64,
}

/// A civil date: year, month (1 to 12) and day of the month (1 to 31).
#[derive(Clone, Copy, Debug, PartialEq, Eq, Structural)]
pub struct CivilDate {
    pub year: i32,
    pub month: u32,
    pub day: u32,
}

/// The proleptic Gregorian date (year, month, day) of the day numbered
/// `days`, counting 0001-01-01 as day 1; `None` where the calendar
/// implementation has no such date.
pub uninterp spec fn gregorian_date(days: int) -> Option<(i32, u32, u32)>;

/// Relies on chrono's `NaiveDate::from_num_days_from_ce_opt` for the calendar
/// date of a day number (0001-01-01 being day 1), and on `Datelike` for its
/// year, month (1 to 12) and day (1 to 31).
#[verifier::external_body]
fn date_from_ce_days(days: i32) -> (r: Option<(i32, u32, u32)>)
    ensures
        r == gregorian_date(days as int),
        r matches Some((y, m, d)) ==> 1 <= m <= 12 && 1 <= d <= 31,
{
    match chrono::NaiveDate::from_num_days_from_ce_opt(days) {
        Some(d) => Some((d.year(), d.month(), d.day())),
        None => None,
    }
}

/// The number, counting 0001-01-01 as day 1, of the UTC+9 civil day on which
/// the instant `secs` falls.
pub open spec fn local_ce_day(secs: int) -> int {
    (secs + LOCAL_OFFSET_SECS) / (SECS_PER_DAY as int) + UNIX_EPOCH_CE_DAY
}

/// The internal date of an instant: the civil date, in UTC+9, of the day
/// on which it falls; `None` where that day is beyond the calendar's range.
pub open spec fn internal_date(t: Instant) -> Option<CivilDate> {
    let day = local_ce_day(t.secs as int);
    if i32::MIN <= day <= i32::MAX {
        match gregorian_date(day) {
            Some((y, m, d)) => Some(CivilDate { year: y, month: m, day: d }),
            None => None,
        }
    } else {
        None
    }
}

/// `x` divided by the number of seconds in a day, rounded down.
fn floor_div_day(x: i128) -> (r: i128)
    requires
        -0x1_0000_0000_0000_0000 < x < 0x1_0000_0000_0000_0000,
    ensures
        r as int == (x as int) / (SECS_PER_DAY as int),
{
    if x >= 0 {
        ((x as u128) / 86400) as i128
    } else {
        let r = -((((-(x + 1)) as u128) / 86400) as i128) - 1;
        assert(r == x / 86400) by (nonlinear_arith)
            requires
                x < 0,
                r == -((-(x + 1)) / 86400) - 1,
        ;
        r
    }
}

/// Converts a UTC instant to the civil date it falls on in UTC+9.
pub fn utc_to_date(t: &Instant) -> (r: Option<CivilDate>)
    ensures
        r == internal_date(*t),
        r matches Some(c) ==> 1 <= c.month <= 12 && 1 <= c.day <= 31,
{
    let x: i128 = t.secs as i128 + LOCAL_OFFSET_SECS as i128;
    let shifted: i128 = floor_div_day(x);
    let day: i128 = shifted + UNIX_EPOCH_CE_DAY as i128;
    if day < i32::MIN as i128 || day > i32::MAX as i128 {
        return None;
    }
    match date_from_ce_days(day as i32) {
        Some((y, m, d)) => Some(CivilDate { year: y, month: m, day: d }),
        None => None,
    }
}

/// The internal date depends on the UTC+9 civil day alone: two instants that
/// fall on the same day in UTC+9 get the same date, whatever their time of
/// day.
pub proof fn lemma_internal_date_by_local_day(a: Instant, b: Instant)
    requires
        local_ce_day(a.secs as int) == local_ce_day(b.secs as int),
    ensures
        internal_date(a) == internal_date(b),
{
}

} // verus!
