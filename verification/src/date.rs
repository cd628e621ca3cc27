//! Calendar dates without a time component, as stored in the
//! `effective_date` columns of framework agreements and contracts.

use vstd::prelude::*;

verus! {

/// The smallest year a date may hold (the SQL `DATE` range).
pub const MIN_YEAR: i32 = 1;

/// The largest year a date may hold (the SQL `DATE` range).
pub const MAX_YEAR: i32 = 9999;

/// A calendar date in the proleptic Gregorian calendar, restricted to the
/// SQL `DATE` range of years 1 through 9999.
#[derive(Clone, Copy, PartialEq, Eq, Structural, Debug)]
pub struct Date {
    pub year: i32,
    pub month: u8,
    pub day: u8,
}

/// Whether `y` is a leap year in the Gregorian calendar.
pub open spec fn is_leap_year(y: int) -> bool {
    (y % 4 == 0 && y % 100 != 0) || y % 400 == 0
}

/// The number of days in month `m` of year `y`, for months 1 through 12.
pub open spec fn days_in_month(y: int, m: int) -> int {
    if m == 2 {
        if is_leap_year(y) {
            29
        } else {
            28
        }
    } else if m == 4 || m == 6 || m == 9 || m == 11 {
        30
    } else {
        31
    }
}

/// Whether year `y`, month `m`, day `d` name a real calendar date in range.
pub open spec fn valid_ymd(y: int, m: int, d: int) -> bool {
    MIN_YEAR <= y <= MAX_YEAR && 1 <= m <= 12 && 1 <= d <= days_in_month(y, m)
}

/// Whether `year` is a leap year in the Gregorian calendar.
pub fn leap_year(year: i32) -> (r: bool)
    requires
        year >= 0,
    ensures
        r == is_leap_year(year as int),
{
    (year % 4 == 0 && year % 100 != 0) || year % 400 == 0
}

/// The number of days in `month` of `year`, for months 1 through 12.
pub fn month_length(year: i32, month: u8) -> (r: u8)
    requires
        year >= 0,
    ensures
        r as int == days_in_month(year as int, month as int),
{
    if month == 2 {
        if leap_year(year) {
            29
        } else {
            28
        }
    } else if month == 4 || month == 6 || month == 9 || month == 11 {
        30
    } else {
        31
    }
}

impl Date {
    /// Whether this value holds a real calendar date in range.
    pub open spec fn wf(self) -> bool {
        valid_ymd(self.year as int, self.month as int, self.day as int)
    }

    /// Builds the date `year`-`month`-`day`, or returns `None` when the
    /// components do not name a real calendar date in range.
    pub fn from_ymd_opt(year: i32, month: u8, day: u8) -> (r: Option<Date>)
        ensures
            r is Some <==> valid_ymd(year as int, month as int, day as int),
            r matches Some(d) ==> d == (Date { year, month, day }) && d.wf(),
    {
        if MIN_YEAR <= year && year <= MAX_YEAR && 1 <= month && month <= 12 && 1 <= day
            && day <= month_length(year, month) {
            Some(Date { year, month, day })
        } else {
            None
        }
    }
}

} // verus!
