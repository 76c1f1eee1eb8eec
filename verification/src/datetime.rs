//! Dates, times of day, UTC offsets and instants, held as plain integers.
//!
//! An instant is counted in whole seconds from 1970-01-01T00:00:00 UTC, with
//! the nanoseconds of the running second beside it. A date-time with an offset
//! keeps the wall-clock reading and the offset; its instant is the reading
//! minus the offset.

use crate::calendar::{
    calendar_from_julian_day, calendar_julian_day, julian_day_calendar, julian_day_from_calendar,
    julian_day_from_ordinal, ordinal_julian_day, valid_calendar_date, valid_ordinal_date,
    MAX_JULIAN_DAY, MIN_JULIAN_DAY, UNIX_EPOCH_JULIAN_DAY,
};
use vstd::prelude::*;
use vstd::std_specs::cmp::PartialEqSpecImpl;

verus! {

/// Seconds in a day.
pub const SECONDS_PER_DAY: i64 = 86_400;

/// The largest offset from UTC, in seconds, in either direction: 25:59:59.
pub const MAX_OFFSET_SECONDS: i32 = 93_599;

/// Wall-clock seconds from the epoch at the start of the first date.
pub const MIN_LOCAL_SECONDS: i64 = -377_705_116_800;

/// Wall-clock seconds from the epoch at the last second of the last date.
pub const MAX_LOCAL_SECONDS: i64 = 253_402_300_799;

/// Nanoseconds in a second.
pub const NANOSECONDS_PER_SECOND: i64 = 1_000_000_000;

/// A span of time: whole seconds, and nanoseconds beside them. Either may be
/// negative.
#[derive(Clone, Copy, Debug, PartialEq, Eq, PartialOrd, Ord)]
pub struct SignedDuration {
    pub seconds: i64,
    pub nanoseconds: i32,
}

impl SignedDuration {
    /// A span of whole seconds.
    pub fn of_seconds(seconds: i64) -> (r: SignedDuration)
        ensures
            r == (SignedDuration { seconds, nanoseconds: 0 }),
    {
        SignedDuration { seconds, nanoseconds: 0 }
    }
}

/// The nanosecond that a reading with the nanosecond `nanosecond` comes to
/// when it moves by `by` nanoseconds.
pub open spec fn moved_nanosecond(nanosecond: int, by: int) -> int {
    (nanosecond + by) % (NANOSECONDS_PER_SECOND as int)
}

/// The wall-clock seconds that the reading `local_seconds`, with the
/// nanosecond `nanosecond`, comes to when it moves by `seconds` seconds and
/// `nanoseconds` nanoseconds.
pub open spec fn moved_seconds(local_seconds: int, nanosecond: int, seconds: int, nanoseconds: int) -> int {
    local_seconds + seconds + (nanosecond + nanoseconds) / (NANOSECONDS_PER_SECOND as int)
}

/// A component of a date, a time or an offset was out of range.
#[derive(Clone, Copy, Debug, PartialEq, Eq, Structural)]
pub struct ComponentRange;

/// A day of the week.
#[derive(Clone, Copy, Debug, PartialEq, Eq, Structural)]
pub enum Weekday {
    Monday,
    Tuesday,
    Wednesday,
    Thursday,
    Friday,
    Saturday,
    Sunday,
}

impl Weekday {
    /// Days since the last Sunday: 0 for Sunday, 6 for Saturday.
    pub open spec fn days_from_sunday(self) -> int {
        match self {
            Weekday::Sunday => 0,
            Weekday::Monday => 1,
            Weekday::Tuesday => 2,
            Weekday::Wednesday => 3,
            Weekday::Thursday => 4,
            Weekday::Friday => 5,
            Weekday::Saturday => 6,
        }
    }

    /// Days since the last Sunday: 0 for Sunday, 6 for Saturday.
    pub fn number_days_from_sunday(self) -> (r: u8)
        ensures
            r == self.days_from_sunday(),
    {
        match self {
            Weekday::Sunday => 0,
            Weekday::Monday => 1,
            Weekday::Tuesday => 2,
            Weekday::Wednesday => 3,
            Weekday::Thursday => 4,
            Weekday::Friday => 5,
            Weekday::Saturday => 6,
        }
    }

    /// The weekday that lies `n` days after a Sunday, for `n` up to 6.
    pub fn from_days_from_sunday(n: u8) -> (r: Weekday)
        requires
            n <= 6,
        ensures
            r.days_from_sunday() == n,
    {
        if n == 0 {
            Weekday::Sunday
        } else if n == 1 {
            Weekday::Monday
        } else if n == 2 {
            Weekday::Tuesday
        } else if n == 3 {
            Weekday::Wednesday
        } else if n == 4 {
            Weekday::Thursday
        } else if n == 5 {
            Weekday::Friday
        } else {
            Weekday::Saturday
        }
    }
}

/// A month of the year.
#[derive(Clone, Copy, Debug, PartialEq, Eq, Structural)]
pub enum Month {
    January,
    February,
    March,
    April,
    May,
    June,
    July,
    August,
    September,
    October,
    November,
    December,
}

impl Month {
    /// The month's number, 1 for January.
    pub open spec fn number(self) -> int {
        match self {
            Month::January => 1,
            Month::February => 2,
            Month::March => 3,
            Month::April => 4,
            Month::May => 5,
            Month::June => 6,
            Month::July => 7,
            Month::August => 8,
            Month::September => 9,
            Month::October => 10,
            Month::November => 11,
            Month::December => 12,
        }
    }

    /// The month's number, 1 for January.
    pub fn to_number(self) -> (r: u8)
        ensures
            r == self.number(),
    {
        match self {
            Month::January => 1,
            Month::February => 2,
            Month::March => 3,
            Month::April => 4,
            Month::May => 5,
            Month::June => 6,
            Month::July => 7,
            Month::August => 8,
            Month::September => 9,
            Month::October => 10,
            Month::November => 11,
            Month::December => 12,
        }
    }

    /// The month with number `n`, for `n` from 1 to 12.
    pub fn from_number(n: u8) -> (r: Month)
        requires
            1 <= n <= 12,
        ensures
            r.number() == n,
    {
        if n == 1 {
            Month::January
        } else if n == 2 {
            Month::February
        } else if n == 3 {
            Month::March
        } else if n == 4 {
            Month::April
        } else if n == 5 {
            Month::May
        } else if n == 6 {
            Month::June
        } else if n == 7 {
            Month::July
        } else if n == 8 {
            Month::August
        } else if n == 9 {
            Month::September
        } else if n == 10 {
            Month::October
        } else if n == 11 {
            Month::November
        } else {
            Month::December
        }
    }

    /// The month after this one, January after December.
    pub fn next(self) -> (r: Month)
        ensures
            r.number() == self.number() % 12 + 1,
    {
        match self {
            Month::January => Month::February,
            Month::February => Month::March,
            Month::March => Month::April,
            Month::April => Month::May,
            Month::May => Month::June,
            Month::June => Month::July,
            Month::July => Month::August,
            Month::August => Month::September,
            Month::September => Month::October,
            Month::October => Month::November,
            Month::November => Month::December,
            Month::December => Month::January,
        }
    }
}

/// A date of the proleptic Gregorian calendar, from -9999-01-01 to 9999-12-31.
#[derive(Clone, Copy, Debug, PartialEq, Eq, Structural)]
pub struct Date {
    julian_day: i32,
}

impl Date {
    /// The date's Julian day number.
    pub closed spec fn julian_day(self) -> int {
        self.julian_day as int
    }

    /// The date lies between the first and the last date.
    pub open spec fn wf(self) -> bool {
        MIN_JULIAN_DAY <= self.julian_day() <= MAX_JULIAN_DAY
    }

    /// What holds of every value: it is well formed.
    #[verifier::type_invariant]
    pub open spec fn inv(self) -> bool {
        self.wf()
    }

    /// Weekday of a Julian day number: day 0 was a Monday.
    pub open spec fn weekday_of(julian_day: int) -> Weekday {
        let r = julian_day % 7;
        if r == 0 {
            Weekday::Monday
        } else if r == 1 {
            Weekday::Tuesday
        } else if r == 2 {
            Weekday::Wednesday
        } else if r == 3 {
            Weekday::Thursday
        } else if r == 4 {
            Weekday::Friday
        } else if r == 5 {
            Weekday::Saturday
        } else {
            Weekday::Sunday
        }
    }

    /// The date with the given Julian day number, if it can be represented.
    pub fn from_julian_day(julian_day: i32) -> (r: Result<Date, ComponentRange>)
        ensures
            r is Ok <==> MIN_JULIAN_DAY <= julian_day <= MAX_JULIAN_DAY,
            r matches Ok(d) ==> d.julian_day() == julian_day && d.wf(),
    {
        if MIN_JULIAN_DAY <= julian_day && julian_day <= MAX_JULIAN_DAY {
            Ok(Date { julian_day })
        } else {
            Err(ComponentRange)
        }
    }

    /// The date of the given year, month (1 to 12) and day of the month.
    pub fn from_calendar_date(year: i32, month: u8, day: u8) -> (r: Result<Date, ComponentRange>)
        ensures
            r is Ok <==> valid_calendar_date(year as int, month as int, day as int),
            match r {
                Ok(d) => d.wf() && calendar_julian_day(year as int, month as int, day as int)
                    == Some(d.julian_day()),
                Err(_) => calendar_julian_day(year as int, month as int, day as int) is None,
            },
    {
        match julian_day_from_calendar(year, month, day) {
            Some(julian_day) => Ok(Date { julian_day }),
            None => Err(ComponentRange),
        }
    }

    /// The date of the given year and day of the year, counted from 1.
    pub fn from_ordinal_date(year: i32, ordinal: u16) -> (r: Result<Date, ComponentRange>)
        ensures
            r is Ok <==> valid_ordinal_date(year as int, ordinal as int),
            match r {
                Ok(d) => d.wf() && ordinal_julian_day(year as int, ordinal as int) == Some(
                    d.julian_day(),
                ),
                Err(_) => ordinal_julian_day(year as int, ordinal as int) is None,
            },
    {
        match julian_day_from_ordinal(year, ordinal) {
            Some(julian_day) => Ok(Date { julian_day }),
            None => Err(ComponentRange),
        }
    }

    /// The date's Julian day number.
    pub fn to_julian_day(self) -> (r: i32)
        ensures
            r == self.julian_day(),
            self.wf(),
    {
        proof {
            use_type_invariant(self);
        }
        self.julian_day
    }

    /// Year, month (1 to 12) and day of the month.
    pub fn to_calendar_date(self) -> (r: (i32, u8, u8))
        ensures
            (r.0 as int, r.1 as int, r.2 as int) == julian_day_calendar(self.julian_day()),
            1 <= r.1 <= 12,
            1 <= r.2 <= 31,
    {
        proof {
            use_type_invariant(self);
        }
        match calendar_from_julian_day(self.julian_day) {
            Some(calendar) => calendar,
            None => unreached(),
        }
    }

    /// The year.
    pub fn year(self) -> (r: i32)
        ensures
            r == julian_day_calendar(self.julian_day()).0,
    {
        self.to_calendar_date().0
    }

    /// The month.
    pub fn month(self) -> (r: Month)
        ensures
            r.number() == julian_day_calendar(self.julian_day()).1,
    {
        Month::from_number(self.to_calendar_date().1)
    }

    /// The day of the month.
    pub fn day(self) -> (r: u8)
        ensures
            r == julian_day_calendar(self.julian_day()).2,
    {
        self.to_calendar_date().2
    }

    /// The day of the week.
    pub fn weekday(self) -> (r: Weekday)
        ensures
            r == Date::weekday_of(self.julian_day()),
    {
        proof {
            use_type_invariant(self);
        }
        // Seven million is a multiple of seven and lifts every day number above zero.
        let lifted: i32 = self.julian_day + 7_000_000;
        let r: i32 = lifted % 7;
        if r == 0 {
            Weekday::Monday
        } else if r == 1 {
            Weekday::Tuesday
        } else if r == 2 {
            Weekday::Wednesday
        } else if r == 3 {
            Weekday::Thursday
        } else if r == 4 {
            Weekday::Friday
        } else if r == 5 {
            Weekday::Saturday
        } else {
            Weekday::Sunday
        }
    }

    /// The day after this one, unless this is the last date.
    pub fn next_day(self) -> (r: Option<Date>)
        ensures
            r is Some <==> self.julian_day() < MAX_JULIAN_DAY,
            r matches Some(d) ==> d.wf() && d.julian_day() == self.julian_day() + 1,
    {
        proof {
            use_type_invariant(self);
        }
        if self.julian_day < MAX_JULIAN_DAY {
            Some(Date { julian_day: self.julian_day + 1 })
        } else {
            None
        }
    }

    /// The date `days` days later (earlier where negative), if it can be
    /// represented.
    pub fn checked_add_days(self, days: i64) -> (r: Option<Date>)
        ensures
            r is Some <==> MIN_JULIAN_DAY <= self.julian_day() + days <= MAX_JULIAN_DAY,
            r matches Some(d) ==> d.wf() && d.julian_day() == self.julian_day() + days,
    {
        proof {
            use_type_invariant(self);
        }
        if days < -8_000_000 || days > 8_000_000 {
            return None;
        }
        let target: i64 = self.julian_day as i64 + days;
        if MIN_JULIAN_DAY as i64 <= target && target <= MAX_JULIAN_DAY as i64 {
            Some(Date { julian_day: target as i32 })
        } else {
            None
        }
    }
}

/// A time of day, to the nanosecond.
#[derive(Clone, Copy, Debug, PartialEq, Eq, Structural)]
pub struct Time {
    hour: u8,
    minute: u8,
    second: u8,
    nanosecond: u32,
}

impl Time {
    /// Hour, minute and second are those of a clock, the nanosecond is under a
    /// second.
    pub open spec fn valid_components(hour: int, minute: int, second: int, nanosecond: int) -> bool {
        0 <= hour < 24 && 0 <= minute < 60 && 0 <= second < 60 && 0 <= nanosecond < 1_000_000_000
    }

    /// The hour, 0 to 23.
    pub closed spec fn hour_spec(self) -> int {
        self.hour as int
    }

    /// The minute, 0 to 59.
    pub closed spec fn minute_spec(self) -> int {
        self.minute as int
    }

    /// The second, 0 to 59.
    pub closed spec fn second_spec(self) -> int {
        self.second as int
    }

    /// The nanosecond within the second.
    pub closed spec fn nanosecond_spec(self) -> int {
        self.nanosecond as int
    }

    /// Whole seconds since midnight.
    pub open spec fn seconds_of_day(self) -> int {
        self.hour_spec() * 3600 + self.minute_spec() * 60 + self.second_spec()
    }

    /// The components are those of a clock.
    pub open spec fn wf(self) -> bool {
        Time::valid_components(
            self.hour_spec(),
            self.minute_spec(),
            self.second_spec(),
            self.nanosecond_spec(),
        )
    }

    /// What holds of every value: it is well formed.
    #[verifier::type_invariant]
    pub open spec fn inv(self) -> bool {
        self.wf()
    }

    /// Midnight, 00:00:00.
    pub fn midnight() -> (r: Time)
        ensures
            r.wf(),
            r.seconds_of_day() == 0,
            r.nanosecond_spec() == 0,
    {
        Time { hour: 0, minute: 0, second: 0, nanosecond: 0 }
    }

    /// The time with the given hour, minute and second, if they are those of
    /// a clock.
    pub fn from_hms(hour: u8, minute: u8, second: u8) -> (r: Result<Time, ComponentRange>)
        ensures
            r is Ok <==> hour < 24 && minute < 60 && second < 60,
            r matches Ok(t) ==> t.wf() && t.hour_spec() == hour && t.minute_spec() == minute
                && t.second_spec() == second && t.nanosecond_spec() == 0,
    {
        Time::from_hms_nano(hour, minute, second, 0)
    }

    /// The time with the given components, if they are those of a clock.
    pub fn from_hms_nano(hour: u8, minute: u8, second: u8, nanosecond: u32) -> (r: Result<
        Time,
        ComponentRange,
    >)
        ensures
            r is Ok <==> hour < 24 && minute < 60 && second < 60 && nanosecond < 1_000_000_000,
            r matches Ok(t) ==> t.wf() && t.hour_spec() == hour && t.minute_spec() == minute
                && t.second_spec() == second && t.nanosecond_spec() == nanosecond,
    {
        if hour < 24 && minute < 60 && second < 60 && nanosecond < 1_000_000_000 {
            Ok(Time { hour, minute, second, nanosecond })
        } else {
            Err(ComponentRange)
        }
    }

    /// The time that lies `seconds` whole seconds after midnight.
    pub fn from_seconds_of_day(seconds: u32, nanosecond: u32) -> (r: Time)
        requires
            seconds < 86_400,
            nanosecond < 1_000_000_000,
        ensures
            r.wf(),
            r.seconds_of_day() == seconds,
            r.nanosecond_spec() == nanosecond,
    {
        let hour: u32 = seconds / 3600;
        let rest: u32 = seconds % 3600;
        let minute: u32 = rest / 60;
        let second: u32 = rest % 60;
        Time { hour: hour as u8, minute: minute as u8, second: second as u8, nanosecond }
    }

    /// The hour, 0 to 23.
    pub fn hour(self) -> (r: u8)
        ensures
            r == self.hour_spec(),
            r < 24,
    {
        proof {
            use_type_invariant(self);
        }
        self.hour
    }

    /// The minute, 0 to 59.
    pub fn minute(self) -> (r: u8)
        ensures
            r == self.minute_spec(),
            r < 60,
    {
        proof {
            use_type_invariant(self);
        }
        self.minute
    }

    /// The second, 0 to 59.
    pub fn second(self) -> (r: u8)
        ensures
            r == self.second_spec(),
            r < 60,
    {
        proof {
            use_type_invariant(self);
        }
        self.second
    }

    /// The nanosecond within the second.
    pub fn nanosecond(self) -> (r: u32)
        ensures
            r == self.nanosecond_spec(),
            r < 1_000_000_000,
    {
        proof {
            use_type_invariant(self);
        }
        self.nanosecond
    }

    /// Whole seconds since midnight.
    pub fn to_seconds_of_day(self) -> (r: u32)
        ensures
            r == self.seconds_of_day(),
            r < 86_400,
            self.wf(),
    {
        proof {
            use_type_invariant(self);
        }
        self.hour as u32 * 3600 + self.minute as u32 * 60 + self.second as u32
    }
}

/// An offset from UTC in whole seconds, east of Greenwich positive.
#[derive(Clone, Copy, Debug, PartialEq, Eq, Structural)]
pub struct UtcOffset {
    seconds: i32,
}

impl UtcOffset {
    /// The offset in seconds.
    pub closed spec fn seconds(self) -> int {
        self.seconds as int
    }

    /// A number of seconds that an offset can hold.
    pub open spec fn in_range(seconds: int) -> bool {
        -MAX_OFFSET_SECONDS <= seconds <= MAX_OFFSET_SECONDS
    }

    /// The offset is under 26 hours in either direction.
    pub open spec fn wf(self) -> bool {
        UtcOffset::in_range(self.seconds())
    }

    /// What holds of every value: it is well formed.
    #[verifier::type_invariant]
    pub open spec fn inv(self) -> bool {
        self.wf()
    }

    /// The offset of UTC itself.
    pub fn utc() -> (r: UtcOffset)
        ensures
            r.wf(),
            r.seconds() == 0,
    {
        UtcOffset { seconds: 0 }
    }

    /// The offset of the given number of seconds, if it is under 26 hours.
    pub fn from_whole_seconds(seconds: i32) -> (r: Result<UtcOffset, ComponentRange>)
        ensures
            r is Ok <==> UtcOffset::in_range(seconds as int),
            r matches Ok(o) ==> o.wf() && o.seconds() == seconds,
    {
        if -MAX_OFFSET_SECONDS <= seconds && seconds <= MAX_OFFSET_SECONDS {
            Ok(UtcOffset { seconds })
        } else {
            Err(ComponentRange)
        }
    }

    /// The offset in seconds.
    pub fn whole_seconds(self) -> (r: i32)
        ensures
            r == self.seconds(),
            self.wf(),
    {
        proof {
            use_type_invariant(self);
        }
        self.seconds
    }

    /// Whether this is the offset of UTC.
    pub fn is_utc(self) -> (r: bool)
        ensures
            r == (self.seconds() == 0),
    {
        self.seconds == 0
    }
}

/// Wall-clock seconds from the epoch of a date and a number of seconds since
/// midnight.
pub open spec fn local_seconds_of(julian_day: int, seconds_of_day: int) -> int {
    (julian_day - UNIX_EPOCH_JULIAN_DAY) * SECONDS_PER_DAY + seconds_of_day
}

/// The Julian day number on which a count of wall-clock seconds falls.
pub open spec fn julian_day_of_local(local_seconds: int) -> int {
    local_seconds / (SECONDS_PER_DAY as int) + UNIX_EPOCH_JULIAN_DAY
}

/// The seconds since midnight at a count of wall-clock seconds.
pub open spec fn seconds_of_day_of_local(local_seconds: int) -> int {
    local_seconds % (SECONDS_PER_DAY as int)
}

/// A count of wall-clock seconds that falls on a date that can be represented.
pub open spec fn local_in_range(local_seconds: int) -> bool {
    MIN_LOCAL_SECONDS <= local_seconds <= MAX_LOCAL_SECONDS
}

/// A date and a time of day, with no offset: a wall-clock reading.
#[derive(Clone, Copy, Debug, PartialEq, Eq, Structural)]
pub struct PrimitiveDateTime {
    date: Date,
    time: Time,
}

impl PrimitiveDateTime {
    /// The date.
    pub closed spec fn date_spec(self) -> Date {
        self.date
    }

    /// The time of day.
    pub closed spec fn time_spec(self) -> Time {
        self.time
    }

    /// Date and time are well formed.
    pub open spec fn wf(self) -> bool {
        self.date_spec().wf() && self.time_spec().wf()
    }

    /// What holds of every value: it is well formed.
    #[verifier::type_invariant]
    pub open spec fn inv(self) -> bool {
        self.wf()
    }

    /// Wall-clock seconds from the epoch: the reading taken as if it were UTC.
    pub open spec fn local_seconds(self) -> int {
        local_seconds_of(self.date_spec().julian_day(), self.time_spec().seconds_of_day())
    }

    /// The reading made of a date and a time of day.
    pub closed spec fn spec_new(date: Date, time: Time) -> PrimitiveDateTime {
        PrimitiveDateTime { date, time }
    }

    /// The reading made of a date and a time of day.
    pub fn new(date: Date, time: Time) -> (r: PrimitiveDateTime)
        ensures
            r == PrimitiveDateTime::spec_new(date, time),
            r.date_spec() == date,
            r.time_spec() == time,
            r.wf(),
    {
        proof {
            use_type_invariant(date);
            use_type_invariant(time);
        }
        PrimitiveDateTime { date, time }
    }

    /// The reading that lies `local_seconds` wall-clock seconds from the
    /// epoch, if its date can be represented.
    pub fn from_local_seconds(local_seconds: i64, nanosecond: u32) -> (r: Result<
        PrimitiveDateTime,
        ComponentRange,
    >)
        ensures
            r is Ok <==> local_in_range(local_seconds as int) && nanosecond < 1_000_000_000,
            r matches Ok(p) ==> p.wf() && p.local_seconds() == local_seconds
                && p.time_spec().nanosecond_spec() == nanosecond,
    {
        if local_seconds < MIN_LOCAL_SECONDS || local_seconds > MAX_LOCAL_SECONDS || nanosecond
            >= 1_000_000_000 {
            return Err(ComponentRange);
        }
        // The shift is a whole number of days and lifts every count above zero.
        let lifted: i64 = local_seconds + 4_371_587 * SECONDS_PER_DAY;
        let days: i64 = lifted / SECONDS_PER_DAY;
        let rest: i64 = lifted % SECONDS_PER_DAY;
        let julian_day: i64 = days - 4_371_587 + UNIX_EPOCH_JULIAN_DAY as i64;
        assert(local_seconds == (julian_day - UNIX_EPOCH_JULIAN_DAY) * SECONDS_PER_DAY + rest);
        assert(julian_day == julian_day_of_local(local_seconds as int) && rest
            == seconds_of_day_of_local(local_seconds as int)) by {
            vstd::arithmetic::div_mod::lemma_fundamental_div_mod_converse(
                local_seconds as int,
                SECONDS_PER_DAY as int,
                julian_day - UNIX_EPOCH_JULIAN_DAY,
                rest as int,
            );
        }
        let date = Date { julian_day: julian_day as i32 };
        let time = Time::from_seconds_of_day(rest as u32, nanosecond);
        Ok(PrimitiveDateTime { date, time })
    }

    /// The date.
    pub fn date(self) -> (r: Date)
        ensures
            r == self.date_spec(),
    {
        self.date
    }

    /// The time of day.
    pub fn time(self) -> (r: Time)
        ensures
            r == self.time_spec(),
    {
        self.time
    }

    /// Wall-clock seconds from the epoch: the reading taken as if it were UTC.
    pub fn to_local_seconds(self) -> (r: i64)
        ensures
            r == self.local_seconds(),
            local_in_range(r as int),
            self.wf(),
    {
        proof {
            use_type_invariant(self.date);
            use_type_invariant(self.time);
        }
        let days: i64 = self.date.to_julian_day() as i64 - UNIX_EPOCH_JULIAN_DAY as i64;
        days * SECONDS_PER_DAY + self.time.to_seconds_of_day() as i64
    }

    /// The reading taken as one made in UTC.
    pub fn assume_utc(self) -> (r: OffsetDateTime)
        ensures
            r.local() == self,
            r.offset_spec().seconds() == 0,
    {
        proof {
            use_type_invariant(self);
        }
        OffsetDateTime { local: self, offset: UtcOffset::utc() }
    }

    /// The reading taken as one made at the given offset.
    pub fn assume_offset(self, offset: UtcOffset) -> (r: OffsetDateTime)
        ensures
            r.local() == self,
            r.offset_spec() == offset,
    {
        proof {
            use_type_invariant(self);
            use_type_invariant(offset);
        }
        OffsetDateTime { local: self, offset }
    }
}

/// An instant, told as the wall-clock reading at an offset from UTC.
///
/// Two values are equal when they name the same instant, whatever their
/// offsets.
#[derive(Clone, Copy, Debug)]
pub struct OffsetDateTime {
    local: PrimitiveDateTime,
    offset: UtcOffset,
}

impl OffsetDateTime {
    /// The wall-clock reading.
    pub closed spec fn local(self) -> PrimitiveDateTime {
        self.local
    }

    /// The offset at which the reading was made.
    pub closed spec fn offset_spec(self) -> UtcOffset {
        self.offset
    }

    /// Reading and offset are well formed.
    pub open spec fn wf(self) -> bool {
        self.local().wf() && self.offset_spec().wf()
    }

    /// What holds of every value: it is well formed.
    #[verifier::type_invariant]
    pub open spec fn inv(self) -> bool {
        self.wf()
    }

    /// Seconds from the epoch to the instant.
    pub open spec fn timestamp(self) -> int {
        self.local().local_seconds() - self.offset_spec().seconds()
    }

    /// The nanosecond within the second.
    pub open spec fn nanosecond_spec(self) -> int {
        self.local().time_spec().nanosecond_spec()
    }

    /// The same instant in both.
    pub open spec fn same_instant(self, other: OffsetDateTime) -> bool {
        self.timestamp() == other.timestamp() && self.nanosecond_spec() == other.nanosecond_spec()
    }

    /// The instant `timestamp` seconds from the epoch, read in UTC, if its
    /// date can be represented.
    pub fn from_unix_timestamp(timestamp: i64) -> (r: Result<OffsetDateTime, ComponentRange>)
        ensures
            r is Ok <==> local_in_range(timestamp as int),
            r matches Ok(d) ==> d.wf() && d.timestamp() == timestamp && d.offset_spec().seconds()
                == 0 && d.nanosecond_spec() == 0,
    {
        match PrimitiveDateTime::from_local_seconds(timestamp, 0) {
            Ok(local) => Ok(local.assume_utc()),
            Err(e) => Err(e),
        }
    }

    /// The instant `timestamp` seconds and `nanosecond` nanoseconds from the
    /// epoch, read in UTC, if its date can be represented and the nanoseconds
    /// are under a second.
    pub fn from_unix_parts(timestamp: i64, nanosecond: u32) -> (r: Result<
        OffsetDateTime,
        ComponentRange,
    >)
        ensures
            r is Ok <==> local_in_range(timestamp as int) && nanosecond < 1_000_000_000,
            r matches Ok(d) ==> d.wf() && d.timestamp() == timestamp && d.offset_spec().seconds()
                == 0 && d.nanosecond_spec() == nanosecond,
    {
        match PrimitiveDateTime::from_local_seconds(timestamp, nanosecond) {
            Ok(local) => Ok(local.assume_utc()),
            Err(e) => Err(e),
        }
    }

    /// This instant lies before the other.
    pub open spec fn before(self, other: OffsetDateTime) -> bool {
        self.timestamp() < other.timestamp() || (self.timestamp() == other.timestamp()
            && self.nanosecond_spec() < other.nanosecond_spec())
    }

    /// Whether this instant lies before the other.
    pub fn precedes(&self, other: &OffsetDateTime) -> (r: bool)
        ensures
            r == self.before(*other),
    {
        let a = self.unix_timestamp();
        let b = other.unix_timestamp();
        a < b || (a == b && self.local.time().nanosecond() < other.local.time().nanosecond())
    }

    /// Seconds from the epoch to the instant.
    pub fn unix_timestamp(&self) -> (r: i64)
        ensures
            r == self.timestamp(),
            self.wf(),
            MIN_LOCAL_SECONDS - MAX_OFFSET_SECONDS <= r <= MAX_LOCAL_SECONDS + MAX_OFFSET_SECONDS,
    {
        self.local.to_local_seconds() - self.offset.whole_seconds() as i64
    }

    /// The offset at which the reading was made.
    pub fn offset(&self) -> (r: UtcOffset)
        ensures
            r == self.offset_spec(),
    {
        self.offset
    }

    /// The wall-clock reading, without the offset.
    pub fn date_time(&self) -> (r: PrimitiveDateTime)
        ensures
            r == self.local(),
    {
        self.local
    }

    /// The date of the reading.
    pub fn date(&self) -> (r: Date)
        ensures
            r == self.local().date_spec(),
    {
        self.local.date()
    }

    /// The time of day of the reading.
    pub fn time(&self) -> (r: Time)
        ensures
            r == self.local().time_spec(),
    {
        self.local.time()
    }

    /// The year of the reading.
    pub fn year(&self) -> (r: i32)
        ensures
            r == julian_day_calendar(self.local().date_spec().julian_day()).0,
    {
        self.local.date().year()
    }

    /// The same reading and offset with another date.
    pub fn replace_date(&self, date: Date) -> (r: OffsetDateTime)
        ensures
            r.local() == PrimitiveDateTime::spec_new(date, self.local().time_spec()),
            r.local().date_spec() == date,
            r.local().time_spec() == self.local().time_spec(),
            r.offset_spec() == self.offset_spec(),
    {
        proof {
            use_type_invariant(self);
        }
        OffsetDateTime {
            local: PrimitiveDateTime::new(date, self.local.time()),
            offset: self.offset,
        }
    }

    /// The same reading and offset with another time of day.
    pub fn replace_time(&self, time: Time) -> (r: OffsetDateTime)
        ensures
            r.local() == PrimitiveDateTime::spec_new(self.local().date_spec(), time),
            r.local().date_spec() == self.local().date_spec(),
            r.local().time_spec() == time,
            r.offset_spec() == self.offset_spec(),
    {
        proof {
            use_type_invariant(self);
        }
        OffsetDateTime {
            local: PrimitiveDateTime::new(self.local.date(), time),
            offset: self.offset,
        }
    }

    /// The same instant read at another offset, if the date of that reading
    /// can be represented.
    pub fn checked_to_offset(&self, offset: UtcOffset) -> (r: Option<OffsetDateTime>)
        ensures
            r is Some <==> local_in_range(self.timestamp() + offset.seconds()),
            r matches Some(d) ==> d.wf() && d.same_instant(*self) && d.offset_spec() == offset,
    {
        let local_seconds: i64 = self.unix_timestamp() + offset.whole_seconds() as i64;
        match PrimitiveDateTime::from_local_seconds(local_seconds, self.local.time().nanosecond()) {
            Ok(local) => Some(local.assume_offset(offset)),
            Err(_) => None,
        }
    }

    /// The same instant read at another offset.
    pub fn to_offset(&self, offset: UtcOffset) -> (r: OffsetDateTime)
        requires
            local_in_range(self.timestamp() + offset.seconds()),
        ensures
            r.wf(),
            r.same_instant(*self),
            r.offset_spec() == offset,
    {
        match self.checked_to_offset(offset) {
            Some(r) => r,
            None => *self,
        }
    }

    /// The reading moved by `seconds` wall-clock seconds and `nanoseconds`
    /// nanoseconds, at the same offset, if its date can be represented.
    pub(crate) fn checked_add_span(&self, seconds: i64, nanoseconds: i64) -> (r: Option<OffsetDateTime>)
        requires
            -0x8000_0000 <= nanoseconds <= 0x8000_0000,
        ensures
            r is Some <==> local_in_range(
                moved_seconds(
                    self.local().local_seconds(),
                    self.nanosecond_spec(),
                    seconds as int,
                    nanoseconds as int,
                ),
            ),
            r matches Some(d) ==> d.wf() && d.local().local_seconds() == moved_seconds(
                self.local().local_seconds(),
                self.nanosecond_spec(),
                seconds as int,
                nanoseconds as int,
            ) && d.offset_spec() == self.offset_spec() && d.nanosecond_spec() == moved_nanosecond(
                self.nanosecond_spec(),
                nanoseconds as int,
            ),
    {
        proof {
            use_type_invariant(self);
        }
        let base: i64 = self.local.to_local_seconds();
        let total: i64 = self.local.time().nanosecond() as i64 + nanoseconds;
        // The lift is a whole number of seconds and brings every sum above zero.
        let lifted: i64 = total + 3 * NANOSECONDS_PER_SECOND;
        let carry: i64 = lifted / NANOSECONDS_PER_SECOND - 3;
        let rest: i64 = lifted % NANOSECONDS_PER_SECOND;
        assert(carry == (total as int) / (NANOSECONDS_PER_SECOND as int) && rest == (total as int)
            % (NANOSECONDS_PER_SECOND as int)) by {
            vstd::arithmetic::div_mod::lemma_fundamental_div_mod_converse(
                total as int,
                NANOSECONDS_PER_SECOND as int,
                carry as int,
                rest as int,
            );
        }
        if seconds < -1_000_000_000_000 || seconds > 1_000_000_000_000 {
            return None;
        }
        match PrimitiveDateTime::from_local_seconds(base + seconds + carry, rest as u32) {
            Ok(local) => Some(local.assume_offset(self.offset)),
            Err(_) => None,
        }
    }

    /// The reading moved by `seconds` wall-clock seconds, at the same offset,
    /// if its date can be represented.
    pub fn checked_add_seconds(&self, seconds: i64) -> (r: Option<OffsetDateTime>)
        ensures
            r is Some <==> local_in_range(self.local().local_seconds() + seconds),
            r matches Some(d) ==> d.wf() && d.local().local_seconds() == self.local().local_seconds()
                + seconds && d.offset_spec() == self.offset_spec() && d.nanosecond_spec()
                == self.nanosecond_spec(),
    {
        proof {
            use_type_invariant(self.offset);
        }
        let base: i64 = self.local.to_local_seconds();
        if seconds < -1_000_000_000_000 || seconds > 1_000_000_000_000 {
            return None;
        }
        match PrimitiveDateTime::from_local_seconds(
            base + seconds,
            self.local.time().nanosecond(),
        ) {
            Ok(local) => Some(local.assume_offset(self.offset)),
            Err(_) => None,
        }
    }
}

/// The date-time that reads `local_seconds` wall-clock seconds from the epoch,
/// with `nanosecond` in the running second, at an offset of `offset_seconds`.
pub closed spec fn reading(local_seconds: int, nanosecond: int, offset_seconds: int) -> OffsetDateTime {
    let rest = seconds_of_day_of_local(local_seconds);
    OffsetDateTime {
        local: PrimitiveDateTime {
            date: Date { julian_day: julian_day_of_local(local_seconds) as i32 },
            time: Time {
                hour: (rest / 3600) as u8,
                minute: ((rest % 3600) / 60) as u8,
                second: (rest % 60) as u8,
                nanosecond: nanosecond as u32,
            },
        },
        offset: UtcOffset { seconds: offset_seconds as i32 },
    }
}

/// A date-time is the reading of its wall-clock seconds, its nanosecond and
/// its offset: two that agree in these are one.
pub proof fn lemma_reading(d: OffsetDateTime)
    requires
        d.wf(),
    ensures
        d == reading(d.local().local_seconds(), d.nanosecond_spec(), d.offset_spec().seconds()),
{
    let jd = d.local.date.julian_day as int;
    let rest = d.local.time.seconds_of_day();
    let ls = d.local().local_seconds();
    vstd::arithmetic::div_mod::lemma_fundamental_div_mod_converse(
        ls,
        SECONDS_PER_DAY as int,
        jd - UNIX_EPOCH_JULIAN_DAY,
        rest,
    );
    let r = reading(ls, d.nanosecond_spec(), d.offset_spec().seconds());
    assert(r.local.date.julian_day == d.local.date.julian_day);
    assert(r.local.time.hour == d.local.time.hour);
    assert(r.local.time.minute == d.local.time.minute);
    assert(r.local.time.second == d.local.time.second);
}

/// The reading of seconds, nanosecond and offset that are in range is well
/// formed and has them.
pub proof fn lemma_reading_parts(local_seconds: int, nanosecond: int, offset_seconds: int)
    requires
        local_in_range(local_seconds),
        0 <= nanosecond < 1_000_000_000,
        UtcOffset::in_range(offset_seconds),
    ensures
        reading(local_seconds, nanosecond, offset_seconds).wf(),
        reading(local_seconds, nanosecond, offset_seconds).local().local_seconds() == local_seconds,
        reading(local_seconds, nanosecond, offset_seconds).nanosecond_spec() == nanosecond,
        reading(local_seconds, nanosecond, offset_seconds).offset_spec().seconds()
            == offset_seconds,
{
    let rest = seconds_of_day_of_local(local_seconds);
    let days = local_seconds / (SECONDS_PER_DAY as int);
    vstd::arithmetic::div_mod::lemma_fundamental_div_mod(local_seconds, SECONDS_PER_DAY as int);
    assert(local_seconds == SECONDS_PER_DAY * days + rest);
    assert(0 <= rest < 86_400);
}

impl PartialEq for OffsetDateTime {
    fn eq(&self, other: &OffsetDateTime) -> (r: bool) {
        self.unix_timestamp() == other.unix_timestamp() && self.local.time().nanosecond()
            == other.local.time().nanosecond()
    }
}

impl PartialEqSpecImpl for OffsetDateTime {
    open spec fn obeys_eq_spec() -> bool {
        true
    }

    open spec fn eq_spec(&self, other: &OffsetDateTime) -> bool {
        self.same_instant(*other)
    }
}

} // verus!
