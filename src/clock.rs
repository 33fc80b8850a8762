//! Calendar arithmetic: seconds since the Unix epoch of a clock reading.

use crate::cmos::Rtc;
use vstd::prelude::*;

verus! {

pub open spec fn is_leap_year_spec(year: int) -> bool {
    year % 4 == 0 && (year % 100 != 0 || year % 400 == 0)
}

pub open spec fn year_length(year: int) -> int {
    if is_leap_year_spec(year) { 366 } else { 365 }
}

/// Days from 1970-01-01 to January 1st of `year` (zero for earlier years).
pub open spec fn days_before_year_spec(year: int) -> int
    decreases year,
{
    if year <= 1970 {
        0
    } else {
        days_before_year_spec(year - 1) + year_length(year - 1)
    }
}

/// Days in the months before `month` (1-based) of a common year; index 12
/// is the whole year.
pub open spec fn common_days_before_month(month: int) -> int {
    seq![0int, 31, 59, 90, 120, 151, 181, 212, 243, 273, 304, 334, 365][month - 1]
}

/// Days from January 1st to the first of `month` in `year`.
pub open spec fn days_before_month_spec(year: int, month: int) -> int {
    common_days_before_month(month) + if is_leap_year_spec(year) && month > 2 { 1int } else { 0 }
}

/// Seconds since the epoch of a clock reading.
pub open spec fn unix_seconds_spec(rtc: Rtc) -> int {
    86400 * days_before_year_spec(rtc.year as int) + 86400 * days_before_month_spec(
        rtc.year as int,
        rtc.month as int,
    ) + 86400 * (rtc.day - 1) + 3600 * rtc.hour + 60 * rtc.minute + rtc.second
}

proof fn lemma_days_before_year_bounds(year: int)
    ensures
        0 <= days_before_year_spec(year),
        year > 1970 ==> days_before_year_spec(year) <= 366 * (year - 1970),
    decreases year,
{
    if year > 1970 {
        lemma_days_before_year_bounds(year - 1);
    }
}

fn is_leap_year(year: u64) -> (r: bool)
    ensures
        r == is_leap_year_spec(year as int),
{
    if year % 4 != 0 {
        false
    } else if year % 100 != 0 {
        true
    } else {
        year % 400 == 0
    }
}

fn days_before_year(year: u64) -> (r: u64)
    requires
        year <= 0x1_0000_0000,
    ensures
        r == days_before_year_spec(year as int),
{
    let mut days: u64 = 0;
    let mut y: u64 = 1970;
    if year <= 1970 {
        return 0;
    }
    while y < year
        invariant
            1970 <= y <= year <= 0x1_0000_0000,
            days == days_before_year_spec(y as int),
        decreases year - y,
    {
        proof {
            lemma_days_before_year_bounds(y as int);
        }
        days = days + if is_leap_year(y) {
            366
        } else {
            365
        };
        y = y + 1;
    }
    days
}

fn days_before_month(year: u64, month: u64) -> (r: u64)
    requires
        1 <= month <= 13,
    ensures
        r == days_before_month_spec(year as int, month as int),
{
    let table: [u64; 13] = [0, 31, 59, 90, 120, 151, 181, 212, 243, 273, 304, 334, 365];
    let leap_day = is_leap_year(year) && month > 2;
    proof {
        assert(table@ =~= seq![0u64, 31, 59, 90, 120, 151, 181, 212, 243, 273, 304, 334, 365]);
    }
    table[(month - 1) as usize] + if leap_day {
        1
    } else {
        0
    }
}

/// Whole seconds since 1970-01-01 00:00:00 of the reading `rtc`, taking its
/// date as a calendar date (the fraction of the current second is left to
/// the caller).
pub fn unix_seconds(rtc: &Rtc) -> (r: u64)
    requires
        1 <= rtc.month <= 13,
        1 <= rtc.day,
    ensures
        r == unix_seconds_spec(*rtc),
{
    proof {
        lemma_days_before_year_bounds(rtc.year as int);
    }
    let year = rtc.year as u64;
    86400 * days_before_year(year) + 86400 * days_before_month(year, rtc.month as u64) + 86400 * (
    rtc.day - 1) as u64 + 3600 * rtc.hour as u64 + 60 * rtc.minute as u64 + rtc.second as u64
}

} // verus!
