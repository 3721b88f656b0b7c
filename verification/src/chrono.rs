//! Various calendar utilities for the proleptic Gregorian calendar.

use vstd::prelude::*;

verus! {

/// Whether `year` is a leap year in the proleptic Gregorian calendar: every
/// fourth year, except every hundredth, except every four-hundredth.
pub open spec fn spec_is_leap_year(year: int) -> bool {
    (year % 4 == 0 && year % 100 != 0) || year % 400 == 0
}

/// The number of days of the month numbered `month` (1 through 12) of
/// `year`: 31 or 30 by the usual alternation, and 28 or 29 for the second
/// month depending on whether `year` is a leap year.
pub open spec fn spec_days_in_month(month: int, year: int) -> int {
    if month == 4 || month == 6 || month == 9 || month == 11 {
        30
    } else if month == 2 {
        if spec_is_leap_year(year) {
            29
        } else {
            28
        }
    } else {
        31
    }
}

/// Whether `year` is a leap year.
fn is_leap_year(year: i32) -> (r: bool)
    ensures
        r == spec_is_leap_year(year as int),
{
    (year % 4 == 0 && year % 100 != 0) || year % 400 == 0
}

/// Calculates the number of days in any given month.
pub fn days_from_month_in_year(month: u32, year: i32) -> (days: i64)
    requires
        1 <= month <= 12,
    ensures
        days == spec_days_in_month(month as int, year as int),
{
    match month {
        4 | 6 | 9 | 11 => 30,
        2 => if is_leap_year(year) {
            29
        } else {
            28
        },
        _ => 31,
    }
}

} // verus!
