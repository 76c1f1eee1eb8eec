//! What the parts of a `TZ` string mean: seconds, times of day, dates of a
//! year; and the check that they are in the ranges POSIX allows.

use crate::calendar::{
    calendar_julian_day, julian_day_calendar, ordinal_julian_day, MAX_JULIAN_DAY,
};
use crate::datetime;
use crate::datetime::{Month, Weekday};
use crate::interface::TimeZone;
use crate::posix_tz::parser::{
    entry, entry_spec, Date, Dst, DstView, Offset, Rule, Std, Time, Tz, TzView,
};
use crate::posix_tz::{Error, ParseError, RangeError};
use crate::timezones::{find_by_name, found, registered};
use vstd::prelude::*;

verus! {

/// The year that stands for every year without a 29th of February.
pub const COMMON_YEAR: i32 = 2021;

/// Days from the last Sunday to the day with the given Julian day number.
pub open spec fn sunday_number(julian_day: int) -> int {
    (julian_day + 1) % 7
}

/// Days from the day with the given Julian day number to the next day, that
/// day included, that lies `d` days after a Sunday.
pub open spec fn days_until(julian_day: int, d: int) -> int {
    (d - sunday_number(julian_day)) % 7
}

impl Time {
    /// The value of a part that may be missing.
    pub open spec fn part(p: Option<u8>) -> int {
        match p {
            Some(v) => v as int,
            None => 0,
        }
    }

    /// The time in seconds.
    pub open spec fn seconds(self) -> int {
        self.hh * 3600 + Time::part(self.mm) * 60 + Time::part(self.ss)
    }

    /// The hour is at most 24, minute and second at most 59.
    pub open spec fn in_range(self) -> bool {
        self.hh <= 24 && Time::part(self.mm) <= 59 && Time::part(self.ss) <= 59
    }

    /// The time is one of a clock: in range, and the hour under 24.
    pub open spec fn on_clock(self) -> bool {
        self.hh < 24 && Time::part(self.mm) <= 59 && Time::part(self.ss) <= 59
    }

    /// The time in seconds.
    pub fn to_seconds(&self) -> (r: u32)
        ensures
            r == self.seconds(),
    {
        let mm: u32 = match self.mm {
            Some(v) => v as u32,
            None => 0,
        };
        let ss: u32 = match self.ss {
            Some(v) => v as u32,
            None => 0,
        };
        self.hh as u32 * 3600 + mm * 60 + ss
    }

    /// The time as a time of day. It must be one of a clock.
    pub fn to_time(&self) -> (r: datetime::Time)
        requires
            self.on_clock(),
        ensures
            r.wf(),
            r.seconds_of_day() == self.seconds(),
            r.nanosecond_spec() == 0,
    {
        let mm: u8 = match self.mm {
            Some(v) => v,
            None => 0,
        };
        let ss: u8 = match self.ss {
            Some(v) => v,
            None => 0,
        };
        match datetime::Time::from_hms(self.hh, mm, ss) {
            Ok(t) => t,
            Err(_) => unreached(),
        }
    }

    /// Whether the hour is at most 24, minute and second at most 59.
    pub fn is_valid_range(&self) -> (r: bool)
        ensures
            r == self.in_range(),
    {
        let mm: u8 = match self.mm {
            Some(v) => v,
            None => 0,
        };
        let ss: u8 = match self.ss {
            Some(v) => v,
            None => 0,
        };
        self.hh <= 24 && mm <= 59 && ss <= 59
    }
}

impl Offset {
    /// The offset in seconds, west of Greenwich positive.
    pub open spec fn seconds(self) -> int {
        if self.positive {
            self.time.seconds()
        } else {
            -self.time.seconds()
        }
    }

    /// The offset in seconds, west of Greenwich positive.
    pub fn to_seconds(&self) -> (r: i32)
        ensures
            r == self.seconds(),
    {
        let seconds: u32 = self.time.to_seconds();
        if self.positive {
            seconds as i32
        } else {
            -(seconds as i32)
        }
    }
}

impl Date {
    /// The day is one of a year, the month one of twelve, the week one of
    /// five, the weekday one of seven.
    pub open spec fn in_range(self) -> bool {
        match self {
            Date::J(v) => 1 <= v <= 365,
            Date::N(v) => v <= 365,
            Date::M { m, n, d } => d <= 6 && 1 <= n <= 5 && 1 <= m <= 12,
        }
    }

    /// The Julian day number of this day in `year`, or why there is none.
    ///
    /// `Jn` is the day that has the month and the day of the month of the
    /// `n`-th day of a common year. `n` is the day `n + 1` of the year.
    /// `Mm.n.d` is the first day of month `m` or after it that lies `d` days
    /// after a Sunday, and `n - 1` weeks on; for `n` 5, a week less where
    /// that has come to the month after.
    pub open spec fn day_in(self, year: int) -> Result<int, Error> {
        match self {
            Date::J(n) => match ordinal_julian_day(COMMON_YEAR as int, n as int) {
                None => Err(Error::ComponentRange),
                Some(common) => match calendar_julian_day(
                    year,
                    julian_day_calendar(common).1,
                    julian_day_calendar(common).2,
                ) {
                    Some(jd) => Ok(jd),
                    None => Err(Error::ComponentRange),
                },
            },
            Date::N(n) => match ordinal_julian_day(year, n + 1) {
                Some(jd) => Ok(jd),
                None => Err(Error::ComponentRange),
            },
            Date::M { m, n, d } => match calendar_julian_day(year, m as int, 1) {
                None => Err(Error::ComponentRange),
                Some(first) => {
                    let occurrence = first + days_until(first, d as int);
                    let target = occurrence + 7 * (n - 1);
                    if target > MAX_JULIAN_DAY {
                        Err(Error::DateTooLarge)
                    } else if n == 5 && julian_day_calendar(target).1 == julian_day_calendar(
                        occurrence,
                    ).1 % 12 + 1 {
                        Ok(target - 7)
                    } else {
                        Ok(target)
                    }
                },
            },
        }
    }

    /// This day in `year`. The day must be in range.
    pub fn to_date(&self, year: i32) -> (r: Result<datetime::Date, Error>)
        requires
            self.in_range(),
        ensures
            match r {
                Ok(date) => self.day_in(year as int) == Ok::<int, Error>(date.julian_day())
                    && date.wf(),
                Err(e) => self.day_in(year as int) == Err::<int, Error>(e),
            },
    {
        match *self {
            Date::J(n) => {
                let common = match datetime::Date::from_ordinal_date(COMMON_YEAR, n) {
                    Ok(date) => date,
                    Err(_) => {
                        return Err(Error::ComponentRange);
                    },
                };
                match datetime::Date::from_calendar_date(
                    year,
                    common.month().to_number(),
                    common.day(),
                ) {
                    Ok(date) => Ok(date),
                    Err(_) => Err(Error::ComponentRange),
                }
            },
            Date::N(n) => match datetime::Date::from_ordinal_date(year, n + 1) {
                Ok(date) => Ok(date),
                Err(_) => Err(Error::ComponentRange),
            },
            Date::M { m, n, d } => {
                let month = Month::from_number(m);
                let day = Weekday::from_days_from_sunday(d);
                let first = match datetime::Date::from_calendar_date(year, month.to_number(), 1) {
                    Ok(date) => date,
                    Err(_) => {
                        return Err(Error::ComponentRange);
                    },
                };
                let ghost start = first.julian_day();
                let ghost wait = days_until(start, d as int);
                let mut date = first;
                while date.weekday().number_days_from_sunday() != day.number_days_from_sunday()
                    invariant
                        date.wf(),
                        day.days_from_sunday() == d,
                        d <= 6,
                        wait == days_until(start, d as int),
                        start <= date.julian_day() <= start + wait,
                        start + wait > MAX_JULIAN_DAY ==> self.day_in(year as int) == Err::<
                            int,
                            Error,
                        >(Error::DateTooLarge),
                        calendar_julian_day(year as int, m as int, 1) == Some(start),
                        *self == (Date::M { m, n, d }),
                        1 <= n <= 5,
                    decreases start + wait - date.julian_day(),
                {
                    date = match date.next_day() {
                        Some(next) => next,
                        None => {
                            return Err(Error::DateTooLarge);
                        },
                    };
                }
                let occurrence = date;
                assert(occurrence.julian_day() == start + wait);
                let next_month = occurrence.month().next();
                let weeks: i64 = (n as i64 - 1) * 7;
                let target = match occurrence.checked_add_days(weeks) {
                    Some(date) => date,
                    None => {
                        return Err(Error::DateTooLarge);
                    },
                };
                if n == 5 && target.month().to_number() == next_month.to_number() {
                    match target.checked_add_days(-7) {
                        Some(date) => Ok(date),
                        None => unreached(),
                    }
                } else {
                    Ok(target)
                }
            },
        }
    }

    /// Whether the day is in range.
    pub fn is_valid_range(&self) -> (r: bool)
        ensures
            r == self.in_range(),
    {
        match *self {
            Date::J(v) => 1 <= v && v <= 365,
            Date::N(v) => v <= 365,
            Date::M { m, n, d } => d <= 6 && 1 <= n && n <= 5 && 1 <= m && m <= 12,
        }
    }
}

impl Rule {
    /// Both days are in range.
    pub open spec fn dates_in_range(self) -> bool {
        self.start.0.in_range() && self.end.0.in_range()
    }

    /// Both times, where given, are in range.
    pub open spec fn times_in_range(self) -> bool {
        &&& self.start.1 matches Some(t) ==> t.in_range()
        &&& self.end.1 matches Some(t) ==> t.in_range()
    }
}

/// The offsets of standard time and of daylight saving time, where given,
/// are in range.
pub open spec fn offsets_in_range(std_offset: Offset, dst: Option<DstView>) -> bool {
    &&& std_offset.time.in_range()
    &&& dst matches Some(d) ==> (d.offset matches Some(o) ==> o.time.in_range())
}

/// What the check of the ranges says of a `TZ` string: a time of an offset
/// out of range first, then a day of the rule, then a time of the rule.
pub open spec fn range_check(tz: TzView) -> Result<(), RangeError> {
    match tz {
        TzView::Short(_) => Ok(()),
        TzView::Expanded { std, dst } => {
            if !offsets_in_range(std.offset, dst) {
                Err(RangeError::Time)
            } else {
                match dst {
                    Some(DstView { rule: Some(rule), .. }) => {
                        if !rule.dates_in_range() {
                            Err(RangeError::Date)
                        } else if !rule.times_in_range() {
                            Err(RangeError::Time)
                        } else {
                            Ok(())
                        }
                    },
                    _ => Ok(()),
                }
            }
        },
    }
}

impl<'a> Tz<'a> {
    /// Checks that every time and every day is in the range POSIX allows.
    pub fn ensure_valid_range(&self) -> (r: Result<(), RangeError>)
        ensures
            r == range_check(self@),
    {
        match self {
            Tz::Short(_) => Ok(()),
            Tz::Expanded { std, dst } => {
                if !std.offset.time.is_valid_range() {
                    return Err(RangeError::Time);
                }
                match dst {
                    None => Ok(()),
                    Some(dst) => {
                        match &dst.offset {
                            Some(offset) => {
                                if !offset.time.is_valid_range() {
                                    return Err(RangeError::Time);
                                }
                            },
                            None => {},
                        }
                        match &dst.rule {
                            None => Ok(()),
                            Some(rule) => {
                                if !rule.start.0.is_valid_range() || !rule.end.0.is_valid_range() {
                                    return Err(RangeError::Date);
                                }
                                match &rule.start.1 {
                                    Some(time) => {
                                        if !time.is_valid_range() {
                                            return Err(RangeError::Time);
                                        }
                                    },
                                    None => {},
                                }
                                match &rule.end.1 {
                                    Some(time) => {
                                        if !time.is_valid_range() {
                                            return Err(RangeError::Time);
                                        }
                                    },
                                    None => {},
                                }
                                Ok(())
                            },
                        }
                    },
                }
            },
        }
    }
}

/// A `TZ` string that is in range: a zone of the registry, or standard time
/// and perhaps daylight saving time as written.
#[derive(Debug)]
pub enum ParsedTz<'a> {
    Existing(crate::timezone_impl::Tz),
    Expanded((Std<'a>, Option<Dst<'a>>)),
}

/// Parses a `TZ` string, checks its ranges and looks up a short name.
///
/// A string that names a zone as `:name` gives the first zone that the
/// registry finds for `name`: the first zone of the vendor name `name`, or
/// else the first zone in whose name `name` stands.
pub fn parse_intermediate<'a>(input: &'a str) -> (r: Result<ParsedTz<'a>, ParseError<'a>>)
    ensures
        match entry_spec(input@) {
            Err(kind) => r matches Err(ParseError::Syntax(k)) && k == kind,
            Ok(tz) => match range_check(tz) {
                Err(range) => r matches Err(ParseError::Range(e)) && e == range,
                Ok(()) => match tz {
                    TzView::Short(name) => if found(name).len() > 0 {
                        r matches Ok(ParsedTz::Existing(zone)) && registered(found(name)[0], zone)
                    } else {
                        r matches Err(ParseError::UnknownName(n)) && n@ == name
                    },
                    TzView::Expanded { std, dst } => r matches Ok(ParsedTz::Expanded(parts))
                        && parts.0@ == std && (match dst {
                        Some(d) => parts.1 matches Some(p) && p@ == d,
                        None => parts.1 is None,
                    }),
                },
            },
        },
{
    let inner = match entry(input) {
        Ok(tz) => tz,
        Err(kind) => {
            return Err(ParseError::Syntax(kind));
        },
    };
    match inner.ensure_valid_range() {
        Ok(()) => {},
        Err(e) => {
            return Err(ParseError::Range(e));
        },
    }
    match inner {
        Tz::Short(name) => {
            let mut zones = find_by_name(name);
            if zones.len() > 0 {
                let zone = zones.swap_remove(0);
                Ok(ParsedTz::Existing(zone))
            } else {
                Err(ParseError::UnknownName(name))
            }
        },
        Tz::Expanded { std, dst } => Ok(ParsedTz::Expanded((std, dst))),
    }
}

} // verus!
