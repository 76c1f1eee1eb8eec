//! Time zones given by a POSIX `TZ` string.

pub mod expanded;
pub mod intermediate;
pub mod parser;

use crate::datetime::{
    lemma_reading, lemma_reading_parts, local_in_range, reading, OffsetDateTime, UtcOffset,
};
use crate::interface::{Offset, TimeZone, ToTimezone};
use crate::posix_tz::expanded::{
    is_expansion, parse_abstract, rule_on_clock, TzOrExpanded, TzOrExpandedOffset,
};
use crate::posix_tz::intermediate::{parse_intermediate, range_check};
use crate::posix_tz::parser::{entry_spec, ErrorKind, TzView};
use crate::timezone_impl::Tz;
use crate::timezones::{found, registered};
use vstd::prelude::*;

verus! {

/// A part of a `TZ` string is out of the range that POSIX allows.
#[derive(Clone, Copy, Debug, PartialEq, Eq, Structural)]
pub enum RangeError {
    /// A time: the hour above 24, or the minute or the second above 59.
    Time,
    /// A day: of the year, of the week, the week of the month, or the month.
    Date,
}

/// Why a `TZ` string gives no time zone.
#[derive(Clone, Copy, Debug, PartialEq, Eq)]
pub enum ParseError<'a> {
    /// The string does not follow the grammar.
    Syntax(ErrorKind),
    /// The string is of the form `:name`, and the registry finds no zone for
    /// the name.
    UnknownName(&'a str),
    /// A part of the string is out of the range that POSIX allows.
    Range(RangeError),
    /// A part of the string is in the range that POSIX allows and still no
    /// time of day or offset.
    ComponentRange,
}

/// Why a date-time has no offset in a POSIX time zone.
#[derive(Clone, Copy, Debug, PartialEq, Eq, Structural)]
pub enum Error {
    /// A day of the rule does not exist in the year, or a date-time cannot
    /// be represented.
    ComponentRange,
    /// A day of the rule lies after the last date.
    DateTooLarge,
}

/// An offset of a POSIX time zone.
#[derive(Clone, Copy, Debug)]
pub struct PosixTzOffset<'a> {
    pub inner: TzOrExpandedOffset<'a>,
}

impl<'a> Offset for PosixTzOffset<'a> {
    open spec fn utc_seconds(&self) -> int {
        match self.inner {
            TzOrExpandedOffset::Expanded(v) => v.utc_seconds(),
            TzOrExpandedOffset::Tz(v) => v.utc_seconds(),
        }
    }

    open spec fn abbreviation(&self) -> Seq<char> {
        match self.inner {
            TzOrExpandedOffset::Expanded(v) => v.abbreviation(),
            TzOrExpandedOffset::Tz(v) => v.abbreviation(),
        }
    }

    open spec fn in_dst(&self) -> bool {
        match self.inner {
            TzOrExpandedOffset::Expanded(v) => v.in_dst(),
            TzOrExpandedOffset::Tz(v) => v.in_dst(),
        }
    }

    fn to_utc(&self) -> (r: UtcOffset) {
        match &self.inner {
            TzOrExpandedOffset::Expanded(v) => v.to_utc(),
            TzOrExpandedOffset::Tz(v) => v.to_utc(),
        }
    }

    fn name(&self) -> (r: &str) {
        match &self.inner {
            TzOrExpandedOffset::Expanded(v) => v.name(),
            TzOrExpandedOffset::Tz(v) => v.name(),
        }
    }

    fn is_dst(&self) -> (r: bool) {
        match &self.inner {
            TzOrExpandedOffset::Expanded(v) => v.is_dst(),
            TzOrExpandedOffset::Tz(v) => v.is_dst(),
        }
    }
}

/// Reads the clock: calls `time::OffsetDateTime::now_utc`, and
/// `unix_timestamp` and `nanosecond` on what it returns.
///
/// Trusted: nothing. What the clock says is handed on as it is.
#[verifier::external_body]
fn clock() -> (r: (i64, u32)) {
    let now = time::OffsetDateTime::now_utc();
    (now.unix_timestamp(), now.nanosecond())
}

/// A time zone given by a POSIX `TZ` string.
#[derive(Debug)]
pub struct PosixTz<'a> {
    inner: TzOrExpanded<'a>,
}

/// `r` is what the `TZ` string `s` gives.
///
/// A string that fails the grammar gives the part at which it fails; one
/// with a part out of range the kind of the part. `:name` gives the first
/// zone that the registry finds for the name, or tells that there is none.
/// Any other string gives its offsets; a rule's time of 24 hours is an
/// error.
pub open spec fn parsed<'a>(s: Seq<char>, r: Result<PosixTz<'a>, ParseError<'a>>) -> bool {
    match entry_spec(s) {
        Err(kind) => r matches Err(ParseError::Syntax(k)) && k == kind,
        Ok(tz) => match range_check(tz) {
            Err(range) => r matches Err(ParseError::Range(e)) && e == range,
            Ok(()) => match tz {
                TzView::Short(name) => if found(name).len() > 0 {
                    r matches Ok(p) && p.inner_spec() matches TzOrExpanded::Tz(zone) && registered(
                        found(name)[0],
                        zone,
                    )
                } else {
                    r matches Err(ParseError::UnknownName(n)) && n@ == name
                },
                TzView::Expanded { std, dst } => if rule_on_clock(dst) {
                    r matches Ok(p) && p.inner_spec() matches TzOrExpanded::Expanded(x)
                        && is_expansion(std, dst, x)
                } else {
                    r matches Err(ParseError::ComponentRange)
                },
            },
        },
    }
}

impl<'a> PosixTz<'a> {
    /// The zone of the registry, or the offsets of the string.
    pub closed spec fn inner_spec(&self) -> TzOrExpanded<'a> {
        self.inner
    }

    /// The offset in force at the instant of `date_time`, or why there is
    /// none.
    pub open spec fn offset_for(&self, date_time: OffsetDateTime) -> Result<PosixTzOffset<'a>, Error> {
        match self.inner_spec() {
            TzOrExpanded::Tz(zone) => Ok(
                PosixTzOffset {
                    inner: TzOrExpandedOffset::Tz(zone.offset_at_utc(date_time.timestamp())),
                },
            ),
            TzOrExpanded::Expanded(x) => match x.offset_at(date_time) {
                Ok(o) => Ok(PosixTzOffset { inner: TzOrExpandedOffset::Expanded(o) }),
                Err(e) => Err(e),
            },
        }
    }

    /// The instant of `date_time` read in this zone: at the offset in force,
    /// if there is one and the reading falls on a date that can be
    /// represented.
    pub open spec fn conversion(&self, date_time: OffsetDateTime) -> Result<OffsetDateTime, Error> {
        match self.offset_for(date_time) {
            Err(e) => Err(e),
            Ok(o) => if local_in_range(date_time.timestamp() + o.utc_seconds()) {
                Ok(
                    reading(
                        date_time.timestamp() + o.utc_seconds(),
                        date_time.nanosecond_spec(),
                        o.utc_seconds(),
                    ),
                )
            } else {
                Err(Error::ComponentRange)
            },
        }
    }

    /// The instant that the clock tells as `seconds` and `nanosecond` from
    /// the epoch, read in this zone.
    pub open spec fn at_clock(&self, seconds: int, nanosecond: int) -> Result<OffsetDateTime, Error> {
        if local_in_range(seconds) && 0 <= nanosecond < 1_000_000_000 {
            self.conversion(reading(seconds, nanosecond, 0))
        } else {
            Err(Error::ComponentRange)
        }
    }

    /// Parses a POSIX `TZ` string.
    pub fn parse(input: &'a str) -> (r: Result<PosixTz<'a>, ParseError<'a>>)
        ensures
            parsed(input@, r),
    {
        let intermediate = match parse_intermediate(input) {
            Ok(p) => p,
            Err(e) => {
                return Err(e);
            },
        };
        match parse_abstract(intermediate) {
            Ok(inner) => Ok(PosixTz { inner }),
            Err(e) => Err(e),
        }
    }

    /// The instant of `date_time` read in this zone.
    pub fn convert(&self, date_time: &OffsetDateTime) -> (r: Result<OffsetDateTime, Error>)
        ensures
            r == self.conversion(*date_time),
    {
        let offset = match self.get_offset(date_time) {
            Ok(o) => o,
            Err(e) => {
                return Err(e);
            },
        };
        match date_time.checked_to_offset(offset.to_utc()) {
            Some(d) => {
                proof {
                    lemma_reading(d);
                }
                Ok(d)
            },
            None => Err(Error::ComponentRange),
        }
    }

    /// The offset in force at the instant of `date_time`.
    pub fn get_offset(&self, date_time: &OffsetDateTime) -> (r: Result<PosixTzOffset<'a>, Error>)
        ensures
            r == self.offset_for(*date_time),
    {
        match &self.inner {
            TzOrExpanded::Tz(v) => Ok(
                PosixTzOffset { inner: TzOrExpandedOffset::Tz(v.get_offset_utc(date_time)) },
            ),
            TzOrExpanded::Expanded(v) => match v.get_offset_utc(date_time) {
                Ok(o) => Ok(PosixTzOffset { inner: TzOrExpandedOffset::Expanded(o) }),
                Err(e) => Err(e),
            },
        }
    }

    /// The instant that a clock tells as `seconds` and `nanosecond` from the
    /// epoch, read in this zone.
    pub fn convert_clock(&self, seconds: i64, nanosecond: u32) -> (r: Result<OffsetDateTime, Error>)
        ensures
            r == self.at_clock(seconds as int, nanosecond as int),
    {
        match OffsetDateTime::from_unix_parts(seconds, nanosecond) {
            Ok(now) => {
                proof {
                    lemma_reading(now);
                }
                self.convert(&now)
            },
            Err(_) => Err(Error::ComponentRange),
        }
    }

    /// The present instant read in this zone: whatever the clock says,
    /// converted.
    pub fn now(&self) -> (r: Result<OffsetDateTime, Error>)
        ensures
            exists|seconds: i64, nanosecond: u32|
                r == #[trigger] self.at_clock(seconds as int, nanosecond as int),
    {
        let (seconds, nanosecond) = clock();
        self.convert_clock(seconds, nanosecond)
    }

    /// The zone of the registry that this zone is, if it is one.
    pub fn as_iana(&self) -> (r: Option<&Tz>)
        ensures
            match self.inner_spec() {
                TzOrExpanded::Tz(zone) => r == Some(&zone),
                TzOrExpanded::Expanded(_) => r is None,
            },
    {
        match &self.inner {
            TzOrExpanded::Tz(v) => Some(v),
            TzOrExpanded::Expanded(_) => None,
        }
    }

    /// The same zone, following the daylight saving time of `reference`
    /// where the string has daylight saving time and no rule. A zone of the
    /// registry stays what it is.
    pub fn with_reference(self, reference: Tz) -> (r: PosixTz<'a>)
        requires
            reference.wf(),
        ensures
            match self.inner_spec() {
                TzOrExpanded::Tz(zone) => r.inner_spec() == self.inner_spec(),
                TzOrExpanded::Expanded(x) => r.inner_spec() matches TzOrExpanded::Expanded(y)
                    && y.std_spec() == x.std_spec() && y.dst_spec() == x.dst_spec()
                    && y.rule_spec() == x.rule_spec() && y.reference_spec() == reference,
            },
    {
        match self.inner {
            TzOrExpanded::Tz(zone) => PosixTz { inner: TzOrExpanded::Tz(zone) },
            TzOrExpanded::Expanded(x) => PosixTz {
                inner: TzOrExpanded::Expanded(x.with_reference(reference)),
            },
        }
    }
}

/// What a POSIX time zone converts a date-time to is the same instant, read
/// at the offset that the zone has for it.
pub proof fn law_conversion_keeps_instant<'a>(tz: PosixTz<'a>, date_time: OffsetDateTime)
    requires
        date_time.wf(),
        tz.conversion(date_time) is Ok,
        UtcOffset::in_range(tz.offset_for(date_time)->Ok_0.utc_seconds()),
    ensures
        tz.conversion(date_time)->Ok_0.wf(),
        tz.conversion(date_time)->Ok_0.same_instant(date_time),
        tz.conversion(date_time)->Ok_0.offset_spec().seconds() == tz.offset_for(
            date_time,
        )->Ok_0.utc_seconds(),
{
    let seconds = tz.offset_for(date_time)->Ok_0.utc_seconds();
    lemma_reading_parts(date_time.timestamp() + seconds, date_time.nanosecond_spec(), seconds);
}

/// Parses a POSIX `TZ` string.
pub fn parse<'a>(input: &'a str) -> (r: Result<PosixTz<'a>, ParseError<'a>>)
    ensures
        parsed(input@, r),
{
    PosixTz::parse(input)
}

impl<'a, 'b> ToTimezone<&'b PosixTz<'a>> for OffsetDateTime {
    type Out = Result<OffsetDateTime, Error>;

    type CheckedOut = Result<OffsetDateTime, Error>;

    open spec fn convertible(&self, tz: &'b PosixTz<'a>) -> bool {
        true
    }

    open spec fn converted(&self, tz: &'b PosixTz<'a>, out: Result<OffsetDateTime, Error>) -> bool {
        out == tz.conversion(*self)
    }

    open spec fn checked_converted(
        &self,
        tz: &'b PosixTz<'a>,
        out: Result<OffsetDateTime, Error>,
    ) -> bool {
        out == tz.conversion(*self)
    }

    fn to_timezone(&self, tz: &'b PosixTz<'a>) -> (out: Result<OffsetDateTime, Error>) {
        tz.convert(self)
    }

    fn checked_to_timezone(&self, tz: &'b PosixTz<'a>) -> (out: Result<OffsetDateTime, Error>) {
        tz.convert(self)
    }
}

} // verus!
