//! A date-time that keeps its time zone, and moves within it.

use crate::datetime::{
    lemma_reading, lemma_reading_parts, local_in_range, moved_nanosecond, moved_seconds, reading,
    Date, OffsetDateTime, PrimitiveDateTime, SignedDuration, Time, UtcOffset,
};
use crate::ext::{resolved_in, PrimitiveDateTimeExt};
use crate::interface::{Offset, OffsetError, OffsetResult, TimeZone, ToTimezone};
use std::ops::{Add, Sub};
use vstd::prelude::*;
use vstd::std_specs::ops::{AddSpecImpl, SubSpecImpl};

verus! {

/// Seconds in a week.
pub const SECONDS_PER_WEEK: i64 = 604_800;

/// A date-time together with the zone it is read in. The zone is borrowed.
#[derive(Debug, PartialEq)]
pub struct ZonedDateTime<'a, T: TimeZone> {
    date_time: OffsetDateTime,
    timezone: &'a T,
}

impl<'a, T: TimeZone> Clone for ZonedDateTime<'a, T> {
    fn clone(&self) -> (r: Self)
        ensures
            r == *self,
    {
        ZonedDateTime { date_time: self.date_time, timezone: self.timezone }
    }
}

impl<'a, T: TimeZone> Copy for ZonedDateTime<'a, T> {

}

/// A span of time to move a zoned date-time by.
///
/// A span of days moves the wall-clock reading and resolves it again. A span
/// of clock time moves the reading by the span and by the offset in force,
/// and resolves it again.
#[derive(Clone, Copy, Debug, PartialEq, Eq, PartialOrd, Ord)]
pub enum Duration {
    /// Whole days or weeks.
    Date(SignedDuration),
    /// Hours, minutes or seconds.
    Time(SignedDuration),
}

impl Duration {
    /// A span of `weeks` weeks.
    pub fn weeks(weeks: i64) -> (r: Duration)
        requires
            i64::MIN <= weeks * SECONDS_PER_WEEK <= i64::MAX,
        ensures
            r == Duration::Date(
                SignedDuration { seconds: (weeks * SECONDS_PER_WEEK) as i64, nanoseconds: 0 },
            ),
    {
        Duration::Date(SignedDuration::of_seconds(weeks * SECONDS_PER_WEEK))
    }

    /// A span of `days` days.
    pub fn days(days: i64) -> (r: Duration)
        requires
            i64::MIN <= days * 86_400 <= i64::MAX,
        ensures
            r == Duration::Date(SignedDuration { seconds: (days * 86_400) as i64, nanoseconds: 0 }),
    {
        Duration::Date(SignedDuration::of_seconds(days * 86_400))
    }

    /// A span of `hours` hours.
    pub fn hours(hours: i64) -> (r: Duration)
        requires
            i64::MIN <= hours * 3_600 <= i64::MAX,
        ensures
            r == Duration::Time(SignedDuration { seconds: (hours * 3_600) as i64, nanoseconds: 0 }),
    {
        Duration::Time(SignedDuration::of_seconds(hours * 3_600))
    }

    /// A span of `minutes` minutes.
    pub fn minutes(minutes: i64) -> (r: Duration)
        requires
            i64::MIN <= minutes * 60 <= i64::MAX,
        ensures
            r == Duration::Time(SignedDuration { seconds: (minutes * 60) as i64, nanoseconds: 0 }),
    {
        Duration::Time(SignedDuration::of_seconds(minutes * 60))
    }

    /// A span of `seconds` seconds.
    pub fn seconds(seconds: i64) -> (r: Duration)
        ensures
            r == Duration::Time(SignedDuration { seconds, nanoseconds: 0 }),
    {
        Duration::Time(SignedDuration::of_seconds(seconds))
    }
}

impl<'a, T: TimeZone> ZonedDateTime<'a, T> {
    /// The date-time, with the offset that the zone gave it.
    pub closed spec fn date_time(self) -> OffsetDateTime {
        self.date_time
    }

    /// The zone.
    pub closed spec fn zone(self) -> &'a T {
        self.timezone
    }

    /// The date-time `date_time` in the zone `timezone`.
    pub closed spec fn of(date_time: OffsetDateTime, timezone: &'a T) -> ZonedDateTime<'a, T> {
        ZonedDateTime { date_time, timezone }
    }

    /// A zoned date-time is made of its date-time and its zone.
    pub proof fn lemma_of(date_time: OffsetDateTime, timezone: &'a T)
        ensures
            Self::of(date_time, timezone).date_time() == date_time,
            Self::of(date_time, timezone).zone() == timezone,
    {
    }

    /// The wall-clock reading `local_seconds`, with the nanosecond
    /// `nanosecond`, resolved in this date-time's zone: at the one offset, at
    /// the first of two, or nothing where the reading is undefined or its
    /// date cannot be represented.
    pub open spec fn at_reading(self, local_seconds: int, nanosecond: int) -> Option<
        ZonedDateTime<'a, T>,
    > {
        if local_in_range(local_seconds) {
            match Self::first_seconds(self.zone().offset_at_local(local_seconds)) {
                Some(seconds) => Some(
                    Self::of(reading(local_seconds, nanosecond, seconds), self.zone()),
                ),
                None => None,
            }
        } else {
            None
        }
    }

    /// The first offset, in seconds, that a zone has for a reading, if it has
    /// one.
    pub open spec fn first_seconds(resolved: OffsetResult<T::Offset>) -> Option<int> {
        match resolved {
            Ok(o) => Some(o.utc_seconds()),
            Err(OffsetError::Ambiguous(a, _)) => Some(a.utc_seconds()),
            Err(OffsetError::Undefined) => None,
        }
    }

    /// A reading resolved in a date-time's zone is a date-time of that zone
    /// with that reading and that nanosecond, at the first offset that the
    /// zone has for it.
    pub proof fn law_resolved_reading(self, local_seconds: int, nanosecond: int)
        requires
            0 <= nanosecond < 1_000_000_000,
            self.at_reading(local_seconds, nanosecond) is Some,
            Self::first_seconds(self.zone().offset_at_local(local_seconds)) matches Some(s)
                ==> UtcOffset::in_range(s),
        ensures
            self.at_reading(local_seconds, nanosecond)->0.zone() == self.zone(),
            self.at_reading(local_seconds, nanosecond)->0.date_time().wf(),
            self.at_reading(local_seconds, nanosecond)->0.date_time().local().local_seconds()
                == local_seconds,
            self.at_reading(local_seconds, nanosecond)->0.date_time().nanosecond_spec()
                == nanosecond,
            Some(self.at_reading(local_seconds, nanosecond)->0.date_time().offset_spec().seconds())
                == Self::first_seconds(self.zone().offset_at_local(local_seconds)),
    {
        let s = Self::first_seconds(self.zone().offset_at_local(local_seconds))->0;
        let d = reading(local_seconds, nanosecond, s);
        lemma_reading_parts(local_seconds, nanosecond, s);
        Self::lemma_of(d, self.zone());
    }

    /// The reading that this date-time comes to when it moves by `seconds`
    /// seconds and `nanoseconds` nanoseconds, resolved in its zone.
    pub open spec fn moved_by(self, seconds: int, nanoseconds: int) -> Option<ZonedDateTime<'a, T>> {
        self.at_reading(
            moved_seconds(
                self.date_time().local().local_seconds(),
                self.date_time().nanosecond_spec(),
                seconds,
                nanoseconds,
            ),
            moved_nanosecond(self.date_time().nanosecond_spec(), nanoseconds),
        )
    }

    /// This date-time moved forward by `rhs`.
    pub open spec fn plus(self, rhs: Duration) -> Option<ZonedDateTime<'a, T>> {
        match rhs {
            Duration::Date(v) => self.moved_by(v.seconds as int, v.nanoseconds as int),
            Duration::Time(v) => self.moved_by(
                v.seconds + self.date_time().offset_spec().seconds(),
                v.nanoseconds as int,
            ),
        }
    }

    /// This date-time moved back by `rhs`.
    pub open spec fn minus(self, rhs: Duration) -> Option<ZonedDateTime<'a, T>> {
        match rhs {
            Duration::Date(v) => self.moved_by(-v.seconds, -v.nanoseconds),
            Duration::Time(v) => self.moved_by(
                -v.seconds - self.date_time().offset_spec().seconds(),
                -v.nanoseconds,
            ),
        }
    }

    /// The wall-clock reading `date_time` resolved in the zone `timezone`.
    pub fn from_local(date_time: PrimitiveDateTime, timezone: &'a T) -> (r: OffsetResult<
        ZonedDateTime<'a, T>,
    >)
        ensures
            resolved_in(date_time, timezone, r),
    {
        match date_time.assume_timezone(timezone) {
            Ok(d) => Ok(ZonedDateTime { date_time: d, timezone }),
            Err(OffsetError::Ambiguous(a, b)) => Err(
                OffsetError::Ambiguous(
                    ZonedDateTime { date_time: a, timezone },
                    ZonedDateTime { date_time: b, timezone },
                ),
            ),
            Err(OffsetError::Undefined) => Err(OffsetError::Undefined),
        }
    }

    /// The instant of `date_time` in the zone `timezone`. The reading in the
    /// zone must fall on a date that can be represented.
    pub fn from_utc(date_time: OffsetDateTime, timezone: &'a T) -> (r: ZonedDateTime<'a, T>)
        requires
            date_time.convertible(timezone),
        ensures
            r.zone() == timezone,
            date_time.converted(timezone, r.date_time()),
    {
        let converted = date_time.to_timezone(timezone);
        ZonedDateTime { date_time: converted, timezone }
    }

    /// The wall-clock reading of `date_time`, whatever its offset, resolved
    /// in the zone `timezone`.
    pub fn from_local_offset(date_time: OffsetDateTime, timezone: &'a T) -> (r: OffsetResult<
        ZonedDateTime<'a, T>,
    >)
        ensures
            resolved_in(date_time.local(), timezone, r),
    {
        ZonedDateTime::from_local(date_time.date_time(), timezone)
    }

    /// The date of the reading.
    pub fn date(&self) -> (r: Date)
        ensures
            r == self.date_time().local().date_spec(),
    {
        self.date_time.date()
    }

    /// The time of day of the reading.
    pub fn time(&self) -> (r: Time)
        ensures
            r == self.date_time().local().time_spec(),
    {
        self.date_time.time()
    }

    /// The reading with another date, resolved again in the zone.
    pub fn replace_date(&self, date: Date) -> (r: OffsetResult<ZonedDateTime<'a, T>>)
        ensures
            resolved_in(
                PrimitiveDateTime::spec_new(date, self.date_time().local().time_spec()),
                self.zone(),
                r,
            ),
    {
        ZonedDateTime::from_local_offset(self.date_time.replace_date(date), self.timezone)
    }

    /// The reading with another time of day, resolved again in the zone.
    pub fn replace_time(&self, time: Time) -> (r: OffsetResult<ZonedDateTime<'a, T>>)
        ensures
            resolved_in(
                PrimitiveDateTime::spec_new(self.date_time().local().date_spec(), time),
                self.zone(),
                r,
            ),
    {
        ZonedDateTime::from_local_offset(self.date_time.replace_time(time), self.timezone)
    }

    /// The offset of the reading.
    pub fn offset(&self) -> (r: UtcOffset)
        ensures
            r == self.date_time().offset_spec(),
    {
        self.date_time.offset()
    }

    /// The date-time with its offset.
    pub fn offset_date_time(&self) -> (r: OffsetDateTime)
        ensures
            r == self.date_time(),
    {
        self.date_time
    }

    /// The zone.
    pub fn timezone(&self) -> (r: &'a T)
        ensures
            r == self.zone(),
    {
        self.timezone
    }

    /// The same instant in another zone. The reading in that zone must fall
    /// on a date that can be represented.
    pub fn replace_timezone<'b, T1: TimeZone>(&self, timezone: &'b T1) -> (r: ZonedDateTime<'b, T1>)
        requires
            self.date_time().convertible(timezone),
        ensures
            r.zone() == timezone,
            self.date_time().converted(timezone, r.date_time()),
    {
        ZonedDateTime::from_utc(self.date_time, timezone)
    }

    /// Resolves the reading that this date-time comes to when it moves by
    /// `seconds` seconds and `nanoseconds` nanoseconds.
    fn moved(&self, seconds: i64, nanoseconds: i64) -> (r: Option<ZonedDateTime<'a, T>>)
        requires
            -0x8000_0000 <= nanoseconds <= 0x8000_0000,
        ensures
            r == self.moved_by(seconds as int, nanoseconds as int),
    {
        match self.date_time.checked_add_span(seconds, nanoseconds) {
            None => None,
            Some(shifted) => {
                match ZonedDateTime::from_local_offset(shifted, self.timezone) {
                    Ok(z) => {
                        proof {
                            lemma_reading(z.date_time);
                        }
                        Some(z)
                    },
                    Err(OffsetError::Ambiguous(z, _)) => {
                        proof {
                            lemma_reading(z.date_time);
                        }
                        Some(z)
                    },
                    Err(OffsetError::Undefined) => None,
                }
            },
        }
    }

    /// Resolves the reading that this date-time comes to when it moves by
    /// `span` and by `extra` seconds more, forward or back.
    fn moved_span(&self, span: SignedDuration, extra: i64, back: bool) -> (r: Option<
        ZonedDateTime<'a, T>,
    >)
        requires
            -100_000 <= extra <= 100_000,
        ensures
            r == if back {
                self.moved_by(-span.seconds - extra, -span.nanoseconds)
            } else {
                self.moved_by(span.seconds + extra, span.nanoseconds as int)
            },
    {
        proof {
            use_type_invariant(self.date_time);
        }
        if span.seconds < -1_000_000_000_000 || span.seconds > 1_000_000_000_000 {
            // So far away no date can be represented.
            None
        } else if back {
            self.moved(-span.seconds - extra, -(span.nanoseconds as i64))
        } else {
            self.moved(span.seconds + extra, span.nanoseconds as i64)
        }
    }

    /// This date-time moved forward by `rhs`, if the reading it comes to is
    /// defined and its date can be represented.
    pub fn checked_add(&self, rhs: Duration) -> (r: Option<ZonedDateTime<'a, T>>)
        ensures
            r == self.plus(rhs),
    {
        match rhs {
            Duration::Date(v) => self.moved_span(v, 0, false),
            Duration::Time(v) => {
                let offset: i64 = self.date_time.offset().whole_seconds() as i64;
                self.moved_span(v, offset, false)
            },
        }
    }

    /// This date-time moved back by `rhs`, if the reading it comes to is
    /// defined and its date can be represented.
    pub fn checked_sub(&self, rhs: Duration) -> (r: Option<ZonedDateTime<'a, T>>)
        ensures
            r == self.minus(rhs),
    {
        match rhs {
            Duration::Date(v) => self.moved_span(v, 0, true),
            Duration::Time(v) => {
                let offset: i64 = self.date_time.offset().whole_seconds() as i64;
                self.moved_span(v, offset, true)
            },
        }
    }
}

impl<'a, T: TimeZone> Add<Duration> for ZonedDateTime<'a, T> {
    type Output = ZonedDateTime<'a, T>;

    fn add(self, rhs: Duration) -> (r: ZonedDateTime<'a, T>) {
        match self.checked_add(rhs) {
            Some(z) => z,
            None => unreached(),
        }
    }
}

impl<'a, T: TimeZone> AddSpecImpl<Duration> for ZonedDateTime<'a, T> {
    open spec fn obeys_add_spec() -> bool {
        true
    }

    /// The reading that the sum comes to is defined and can be represented.
    open spec fn add_req(self, rhs: Duration) -> bool {
        self.plus(rhs) is Some
    }

    open spec fn add_spec(self, rhs: Duration) -> ZonedDateTime<'a, T> {
        self.plus(rhs)->0
    }
}

impl<'a, T: TimeZone> Sub<Duration> for ZonedDateTime<'a, T> {
    type Output = ZonedDateTime<'a, T>;

    fn sub(self, rhs: Duration) -> (r: ZonedDateTime<'a, T>) {
        match self.checked_sub(rhs) {
            Some(z) => z,
            None => unreached(),
        }
    }
}

impl<'a, T: TimeZone> SubSpecImpl<Duration> for ZonedDateTime<'a, T> {
    open spec fn obeys_sub_spec() -> bool {
        true
    }

    /// The reading that the difference comes to is defined and can be
    /// represented.
    open spec fn sub_req(self, rhs: Duration) -> bool {
        self.minus(rhs) is Some
    }

    open spec fn sub_spec(self, rhs: Duration) -> ZonedDateTime<'a, T> {
        self.minus(rhs)->0
    }
}

} // verus!
