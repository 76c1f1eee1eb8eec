//! The proleptic Gregorian calendar, as the `time` crate computes it.
//!
//! A date is carried as its Julian day number. Going between a Julian day
//! number and a year, month and day is left to `time`. What it returns is
//! named here; the three functions that call it are believed, not proved.
//!
//! The bounds are those of `time` as it is built by default, with years from
//! -9999 to 9999. With its feature `large-dates` switched on, `time` accepts
//! more dates than this module says it does: the library must not be built
//! with that feature.

use vstd::prelude::*;

verus! {

/// Julian day number of the first date that can be represented, -9999-01-01.
pub const MIN_JULIAN_DAY: i32 = -1_930_999;

/// Julian day number of the last date that can be represented, 9999-12-31.
pub const MAX_JULIAN_DAY: i32 = 5_373_484;

/// Julian day number of 1970-01-01.
pub const UNIX_EPOCH_JULIAN_DAY: i32 = 2_440_588;

/// The first year that can be represented.
pub const MIN_YEAR: i32 = -9999;

/// The last year that can be represented.
pub const MAX_YEAR: i32 = 9999;

/// Whether `year` has a 29th of February.
pub open spec fn is_leap_year(year: int) -> bool {
    year % 4 == 0 && (year % 100 != 0 || year % 400 == 0)
}

/// Number of days of `month` (1 to 12) in a common or a leap year.
pub open spec fn days_in_month(month: int, leap: bool) -> int {
    if month == 2 {
        if leap {
            29
        } else {
            28
        }
    } else if month == 4 || month == 6 || month == 9 || month == 11 {
        30
    } else {
        31
    }
}

/// Year, month and day name a date that can be represented.
pub open spec fn valid_calendar_date(year: int, month: int, day: int) -> bool {
    &&& MIN_YEAR <= year <= MAX_YEAR
    &&& 1 <= month <= 12
    &&& 1 <= day <= days_in_month(month, is_leap_year(year))
}

/// Year and day of the year name a date that can be represented.
pub open spec fn valid_ordinal_date(year: int, ordinal: int) -> bool {
    &&& MIN_YEAR <= year <= MAX_YEAR
    &&& 1 <= ordinal <= if is_leap_year(year) {
        366int
    } else {
        365int
    }
}

/// Julian day number of a calendar date, or `None` where `time` refuses the
/// date.
pub uninterp spec fn calendar_julian_day(year: int, month: int, day: int) -> Option<int>;

/// Julian day number of the `ordinal`-th day of `year`, or `None` where `time`
/// refuses the date.
pub uninterp spec fn ordinal_julian_day(year: int, ordinal: int) -> Option<int>;

/// Year, month (1 to 12) and day of the month of a Julian day number.
pub uninterp spec fn julian_day_calendar(julian_day: int) -> (int, int, int);

/// Calls `time::Date::from_calendar_date` and `time::Date::to_julian_day`.
///
/// Trusted: the result is the named Julian day number; `time` accepts exactly
/// the valid calendar dates; every date it builds lies between its first and
/// its last date.
#[verifier::external_body]
pub(crate) fn julian_day_from_calendar(year: i32, month: u8, day: u8) -> (r: Option<i32>)
    ensures
        match r {
            Some(jd) => calendar_julian_day(year as int, month as int, day as int) == Some(
                jd as int,
            ),
            None => calendar_julian_day(year as int, month as int, day as int) is None,
        },
        r is Some <==> valid_calendar_date(year as int, month as int, day as int),
        r matches Some(jd) ==> MIN_JULIAN_DAY <= jd <= MAX_JULIAN_DAY,
{
    let month = match time::Month::try_from(month) {
        Ok(m) => m,
        Err(_) => return None,
    };
    match time::Date::from_calendar_date(year, month, day) {
        Ok(date) => Some(date.to_julian_day()),
        Err(_) => None,
    }
}

/// Calls `time::Date::from_ordinal_date` and `time::Date::to_julian_day`.
///
/// Trusted: the result is the named Julian day number; `time` accepts exactly
/// the valid ordinal dates; every date it builds lies between its first and
/// its last date.
#[verifier::external_body]
pub(crate) fn julian_day_from_ordinal(year: i32, ordinal: u16) -> (r: Option<i32>)
    ensures
        match r {
            Some(jd) => ordinal_julian_day(year as int, ordinal as int) == Some(jd as int),
            None => ordinal_julian_day(year as int, ordinal as int) is None,
        },
        r is Some <==> valid_ordinal_date(year as int, ordinal as int),
        r matches Some(jd) ==> MIN_JULIAN_DAY <= jd <= MAX_JULIAN_DAY,
{
    match time::Date::from_ordinal_date(year, ordinal) {
        Ok(date) => Some(date.to_julian_day()),
        Err(_) => None,
    }
}

/// Calls `time::Date::from_julian_day` and `time::Date::to_calendar_date`.
///
/// Trusted: `time` has a date for every Julian day number between those of
/// its first and its last date; the result is the named year, month and day;
/// the year lies between the first and the last year, the month between 1 and
/// 12, the day between 1 and 31.
#[verifier::external_body]
pub(crate) fn calendar_from_julian_day(julian_day: i32) -> (r: Option<(i32, u8, u8)>)
    ensures
        r is Some <==> MIN_JULIAN_DAY <= julian_day <= MAX_JULIAN_DAY,
        r matches Some(c) ==> (c.0 as int, c.1 as int, c.2 as int) == julian_day_calendar(
            julian_day as int,
        ) && MIN_YEAR <= c.0 <= MAX_YEAR && 1 <= c.1 <= 12 && 1 <= c.2 <= 31,
{
    match time::Date::from_julian_day(julian_day) {
        Ok(date) => {
            let (year, month, day) = date.to_calendar_date();
            Some((year, u8::from(month), day))
        },
        Err(_) => None,
    }
}

} // verus!
