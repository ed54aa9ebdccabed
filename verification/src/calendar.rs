//! Days of the Gregorian calendar, as far as a PESEL number needs them.

use vstd::prelude::*;

verus! {

/// Whether a PESEL number can encode the year.
pub open spec fn year_in_range(year: int) -> bool {
    1800 <= year <= 2299
}

/// Whether the year has a 29th of February.
pub open spec fn is_leap_year(year: int) -> bool {
    year % 4 == 0 && (year % 100 != 0 || year % 400 == 0)
}

/// The number of days of a month; 0 where `month` is outside 1..=12.
pub open spec fn days_in_month(year: int, month: int) -> int {
    if month == 2 {
        if is_leap_year(year) {
            29
        } else {
            28
        }
    } else if month == 4 || month == 6 || month == 9 || month == 11 {
        30
    } else if 1 <= month <= 12 {
        31
    } else {
        0
    }
}

/// Whether year, month and day name a day of the calendar.
pub open spec fn is_calendar_date(year: int, month: int, day: int) -> bool {
    1 <= month <= 12 && 1 <= day <= days_in_month(year, month)
}

/// Whether the date exists, for a year that a PESEL number can encode.
///
/// Calls `chrono::NaiveDate::from_ymd_opt` and reports whether it returned a
/// date. Not proved: that chrono returns a date exactly for the days of the
/// proleptic Gregorian calendar, as its documentation says. Stated only for
/// the years 1800..=2299, which lie well inside the years chrono can hold.
#[verifier::external_body]
pub(crate) fn is_valid_date(year: i32, month: u32, day: u32) -> (valid: bool)
    requires
        year_in_range(year as int),
    ensures
        valid == is_calendar_date(year as int, month as int, day as int),
{
    chrono::NaiveDate::from_ymd_opt(year, month, day).is_some()
}

} // verus!
