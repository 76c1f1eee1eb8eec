//! A `TZ` string turned into offsets, and the offset it gives at an instant.
//!
//! POSIX counts an offset west of Greenwich, so that local time plus the
//! offset is UTC; an offset from UTC counts the other way. The sign is turned
//! here.

use crate::calendar::julian_day_calendar;
use crate::datetime;
use crate::datetime::{local_seconds_of, OffsetDateTime, PrimitiveDateTime, UtcOffset};
use crate::interface::{Offset, TimeZone};
use crate::posix_tz::intermediate::{range_check, ParsedTz};
use crate::posix_tz::parser::Tz as WrittenTz;
use crate::posix_tz::parser::{Date, Dst, DstView, Std, StdView, Time, TzView};
use crate::posix_tz::{Error, ParseError};
use crate::timezone_impl::{Tz, TzOffset};
use crate::timezones::db::america::new_york;
use crate::timezones::tables;
use vstd::prelude::*;

verus! {

/// Seconds that daylight saving time adds where the string gives no offset
/// for it.
pub const DEFAULT_SAVING: i32 = 3600;

/// The hour at which a rule takes effect where the string gives no time.
pub const DEFAULT_HOUR: u8 = 2;

/// An offset of a zone of the registry, or one of a `TZ` string.
#[derive(Clone, Copy, Debug)]
pub enum TzOrExpandedOffset<'a> {
    Expanded(ExpandedTzOffset<'a>),
    Tz(TzOffset),
}

/// An offset of a `TZ` string: standard time or daylight saving time.
#[derive(Clone, Copy, Debug)]
pub struct ExpandedTzOffset<'a> {
    pub mode: ExpandedMode<'a>,
    pub is_dst: bool,
}

impl<'a> Offset for ExpandedTzOffset<'a> {
    open spec fn utc_seconds(&self) -> int {
        self.mode.offset.seconds()
    }

    open spec fn abbreviation(&self) -> Seq<char> {
        self.mode.name@
    }

    open spec fn in_dst(&self) -> bool {
        self.is_dst
    }

    fn to_utc(&self) -> (r: UtcOffset) {
        proof {
            use_type_invariant(self.mode.offset);
        }
        self.mode.offset
    }

    fn name(&self) -> (r: &str) {
        self.mode.name
    }

    fn is_dst(&self) -> (r: bool) {
        self.is_dst
    }
}

/// Standard time or daylight saving time: its name and its offset from UTC.
#[derive(Clone, Copy, Debug)]
pub struct ExpandedMode<'a> {
    pub name: &'a str,
    pub offset: UtcOffset,
}

/// When daylight saving time begins and ends in a year.
#[derive(Clone, Copy, Debug)]
pub struct Rule {
    pub start: (Date, datetime::Time),
    pub end: (Date, datetime::Time),
}

/// A `TZ` string as offsets: standard time, perhaps daylight saving time,
/// perhaps the rule that tells when it holds. With daylight saving time and
/// no rule, daylight saving time holds whenever it holds in the reference
/// zone.
#[derive(Debug)]
pub struct ExpandedTz<'a> {
    std: ExpandedMode<'a>,
    dst: Option<ExpandedMode<'a>>,
    rule: Option<Rule>,
    reference: Tz,
}

/// The instant that a rule names in a year: the day, the time of day, and
/// the offset at which the time of day is read.
pub open spec fn rule_instant(julian_day: int, time: datetime::Time, offset: UtcOffset) -> int {
    local_seconds_of(julian_day, time.seconds_of_day()) - offset.seconds()
}

/// The instant (`seconds`, `nanosecond`) lies before the instant of the time
/// `time` on a day that begins at `at`.
pub open spec fn before_rule(seconds: int, nanosecond: int, at: int, time: datetime::Time) -> bool {
    seconds < at || (seconds == at && nanosecond < time.nanosecond_spec())
}

impl<'a> ExpandedTz<'a> {
    /// Standard time.
    pub closed spec fn std_spec(&self) -> ExpandedMode<'a> {
        self.std
    }

    /// Daylight saving time, if the zone has it.
    pub closed spec fn dst_spec(&self) -> Option<ExpandedMode<'a>> {
        self.dst
    }

    /// The rule, if the zone has one.
    pub closed spec fn rule_spec(&self) -> Option<Rule> {
        self.rule
    }

    /// The zone whose daylight saving time is followed where there is no
    /// rule.
    pub closed spec fn reference_spec(&self) -> Tz {
        self.reference
    }

    /// The days of the rule are in range, and the reference zone is sound.
    pub open spec fn wf(&self) -> bool {
        &&& self.rule_spec() matches Some(rule) ==> rule.start.0.in_range()
            && rule.end.0.in_range()
        &&& self.reference_spec().wf()
    }

    #[verifier::type_invariant]
    closed spec fn inv(&self) -> bool {
        self.wf()
    }

    /// The offset in force at the instant of `date_time`.
    ///
    /// Without daylight saving time it is standard time. With a rule it is
    /// daylight saving time from the rule's beginning, read in standard
    /// time, up to its end, read in daylight saving time, both in the year
    /// that `date_time` reads. Without a rule it follows the reference zone.
    pub open spec fn offset_at(&self, date_time: OffsetDateTime) -> Result<
        ExpandedTzOffset<'a>,
        Error,
    > {
        match self.dst_spec() {
            None => Ok(ExpandedTzOffset { mode: self.std_spec(), is_dst: false }),
            Some(dst) => match self.rule_spec() {
                None => {
                    let on = self.reference_spec().offset_at_utc(date_time.timestamp()).in_dst();
                    Ok(
                        ExpandedTzOffset {
                            mode: if on {
                                dst
                            } else {
                                self.std_spec()
                            },
                            is_dst: on,
                        },
                    )
                },
                Some(rule) => {
                    let year = julian_day_calendar(date_time.local().date_spec().julian_day()).0;
                    match rule.start.0.day_in(year) {
                        Err(e) => Err(e),
                        Ok(first) => match rule.end.0.day_in(year) {
                            Err(e) => Err(e),
                            Ok(last) => {
                                let start = rule_instant(first, rule.start.1, self.std_spec().offset);
                                let end = rule_instant(last, rule.end.1, dst.offset);
                                let on = !before_rule(
                                    date_time.timestamp(),
                                    date_time.nanosecond_spec(),
                                    start,
                                    rule.start.1,
                                ) && before_rule(
                                    date_time.timestamp(),
                                    date_time.nanosecond_spec(),
                                    end,
                                    rule.end.1,
                                );
                                Ok(
                                    ExpandedTzOffset {
                                        mode: if on {
                                            dst
                                        } else {
                                            self.std_spec()
                                        },
                                        is_dst: on,
                                    },
                                )
                            },
                        },
                    }
                },
            },
        }
    }

    /// The offset in force at the instant of `date_time`.
    pub fn get_offset_utc(&self, date_time: &OffsetDateTime) -> (r: Result<
        ExpandedTzOffset<'a>,
        Error,
    >)
        ensures
            r == self.offset_at(*date_time),
    {
        proof {
            use_type_invariant(self);
        }
        match self.dst {
            None => Ok(ExpandedTzOffset { mode: self.std, is_dst: false }),
            Some(dst) => match &self.rule {
                None => {
                    let tz_offset = self.reference.get_offset_utc(date_time);
                    let on = tz_offset.is_dst();
                    Ok(
                        ExpandedTzOffset {
                            mode: if on {
                                dst
                            } else {
                                self.std
                            },
                            is_dst: on,
                        },
                    )
                },
                Some(rule) => {
                    let year = date_time.year();
                    let first = match rule.start.0.to_date(year) {
                        Ok(date) => date,
                        Err(e) => {
                            return Err(e);
                        },
                    };
                    let last = match rule.end.0.to_date(year) {
                        Ok(date) => date,
                        Err(e) => {
                            return Err(e);
                        },
                    };
                    let start = PrimitiveDateTime::new(first, rule.start.1).assume_offset(
                        self.std.offset,
                    );
                    let end = PrimitiveDateTime::new(last, rule.end.1).assume_offset(dst.offset);
                    let on = !date_time.precedes(&start) && date_time.precedes(&end);
                    Ok(
                        ExpandedTzOffset {
                            mode: if on {
                                dst
                            } else {
                                self.std
                            },
                            is_dst: on,
                        },
                    )
                },
            },
        }
    }

    /// The same zone with another reference zone.
    pub fn with_reference(self, reference: Tz) -> (r: ExpandedTz<'a>)
        requires
            reference.wf(),
        ensures
            r.std_spec() == self.std_spec(),
            r.dst_spec() == self.dst_spec(),
            r.rule_spec() == self.rule_spec(),
            r.reference_spec() == reference,
    {
        proof {
            use_type_invariant(&self);
        }
        let ExpandedTz { std, dst, rule, reference: _ } = self;
        ExpandedTz { std, dst, rule, reference }
    }
}

/// A zone of the registry, or a `TZ` string as offsets.
#[derive(Debug)]
pub enum TzOrExpanded<'a> {
    Tz(Tz),
    Expanded(ExpandedTz<'a>),
}

/// The time at which a part of a rule takes effect: the time given, or two
/// o'clock.
pub open spec fn rule_seconds(time: Option<Time>) -> int {
    match time {
        Some(t) => t.seconds(),
        None => DEFAULT_HOUR * 3600,
    }
}

/// The times of the rule, where given, are times of a clock.
pub open spec fn rule_on_clock(dst: Option<DstView>) -> bool {
    dst matches Some(DstView { rule: Some(rule), .. }) ==> {
        &&& rule.start.1 matches Some(t) ==> t.on_clock()
        &&& rule.end.1 matches Some(t) ==> t.on_clock()
    }
}

/// The offset of daylight saving time, west of Greenwich positive: the one
/// given, or an hour more than that of standard time.
pub open spec fn saving_seconds(std: StdView, dst: DstView) -> int {
    match dst.offset {
        Some(o) => o.seconds(),
        None => std.offset.seconds() + DEFAULT_SAVING,
    }
}

/// `x` is the `TZ` string of `std` and `dst` as offsets: the names as
/// written, the offsets with their signs turned, the rule with its days as
/// written and its times as times of day, the zone `America/New_York` of
/// the registry as the reference zone.
pub open spec fn is_expansion<'a>(std: StdView, dst: Option<DstView>, x: ExpandedTz<'a>) -> bool {
    &&& x.wf()
    &&& follows_new_york(x.reference_spec())
    &&& x.std_spec().name@ == std.name
    &&& x.std_spec().offset.seconds() == -std.offset.seconds()
    &&& match dst {
        None => x.dst_spec() is None && x.rule_spec() is None,
        Some(d) => {
            &&& x.dst_spec() matches Some(mode) && mode.name@ == d.name && mode.offset.seconds()
                == -saving_seconds(std, d)
            &&& match d.rule {
                None => x.rule_spec() is None,
                Some(rule) => x.rule_spec() matches Some(r) && r.start.0 == rule.start.0 && r.end.0
                    == rule.end.0 && r.start.1.seconds_of_day() == rule_seconds(rule.start.1)
                    && r.end.1.seconds_of_day() == rule_seconds(rule.end.1)
                    && r.start.1.nanosecond_spec() == 0 && r.end.1.nanosecond_spec() == 0,
            }
        },
    }
}

/// The parts of a `TZ` string are in the ranges that POSIX allows.
pub open spec fn parts_in_range(std: StdView, dst: Option<DstView>) -> bool {
    &&& std.offset.time.in_range()
    &&& dst matches Some(d) ==> {
        &&& d.offset matches Some(o) ==> o.time.in_range()
        &&& d.rule matches Some(rule) ==> rule.dates_in_range() && rule.times_in_range()
    }
}

/// The view of daylight saving time, if there is one.
pub open spec fn dst_view<'a>(dst: Option<Dst<'a>>) -> Option<DstView> {
    match dst {
        Some(d) => Some(d@),
        None => None,
    }
}

/// The time of day at which a part of a rule takes effect.
fn rule_time(time: &Option<Time>) -> (r: Option<datetime::Time>)
    requires
        time matches Some(t) ==> t.in_range(),
    ensures
        r is Some <==> (time matches Some(t) ==> t.on_clock()),
        r matches Some(t) ==> t.wf() && t.seconds_of_day() == rule_seconds(*time)
            && t.nanosecond_spec() == 0,
{
    match time {
        Some(t) => {
            if t.hh < 24 {
                Some(t.to_time())
            } else {
                None
            }
        },
        None => match datetime::Time::from_hms(DEFAULT_HOUR, 0, 0) {
            Ok(t) => Some(t),
            Err(_) => unreached(),
        },
    }
}

/// `zone` is the zone `America/New_York` of the registry: it bears the name
/// and has the table. The table is long, so this is kept opaque: reveal it
/// where the name or the table is needed.
#[verifier::opaque]
pub open spec fn follows_new_york(zone: Tz) -> bool {
    zone.zone_name() == "America/New_York"@ && zone.table() == tables::america::new_york()
}

/// The zone whose daylight saving time is followed where a string has
/// daylight saving time and no rule, unless another is set.
fn default_reference() -> (r: Tz)
    ensures
        r.wf(),
        follows_new_york(r),
{
    reveal(follows_new_york);
    new_york()
}

/// An offset in range is under 25 hours in either direction.
proof fn lemma_offset_bound(o: crate::posix_tz::parser::Offset)
    requires
        o.time.in_range(),
    ensures
        -89_999 <= o.seconds() <= 89_999,
{
}

/// The offset from UTC of an offset counted west of Greenwich.
fn turned(west: i32) -> (r: UtcOffset)
    requires
        -93_599 <= west <= 93_599,
    ensures
        r.wf(),
        r.seconds() == -west,
{
    match UtcOffset::from_whole_seconds(-west) {
        Ok(o) => o,
        Err(_) => unreached(),
    }
}

/// A rule as written, its times as times of day.
fn expand_rule(written: &crate::posix_tz::parser::Rule) -> (r: Option<Rule>)
    requires
        written.times_in_range(),
    ensures
        r is Some <==> (written.start.1 matches Some(t) ==> t.on_clock()) && (written.end.1 matches Some(
            t,
        ) ==> t.on_clock()),
        r matches Some(rule) ==> rule.start.0 == written.start.0 && rule.end.0 == written.end.0
            && rule.start.1.seconds_of_day() == rule_seconds(written.start.1)
            && rule.end.1.seconds_of_day() == rule_seconds(written.end.1)
            && rule.start.1.nanosecond_spec() == 0 && rule.end.1.nanosecond_spec() == 0,
{
    let start_time = match rule_time(&written.start.1) {
        Some(t) => t,
        None => {
            return None;
        },
    };
    let end_time = match rule_time(&written.end.1) {
        Some(t) => t,
        None => {
            return None;
        },
    };
    Some(Rule { start: (written.start.0, start_time), end: (written.end.0, end_time) })
}

/// Daylight saving time as written, as its name and its offset from UTC.
fn expand_dst<'a>(std: &Std<'a>, dst: &Dst<'a>) -> (r: ExpandedMode<'a>)
    requires
        std.offset.time.in_range(),
        dst.offset matches Some(o) ==> o.time.in_range(),
    ensures
        r.name@ == dst.name@,
        r.offset.wf(),
        r.offset.seconds() == -saving_seconds(std@, dst@),
{
    proof {
        lemma_offset_bound(std.offset);
    }
    let saving_west: i32 = match dst.offset {
        Some(o) => {
            proof {
                lemma_offset_bound(o);
            }
            o.to_seconds()
        },
        None => std.offset.to_seconds() + DEFAULT_SAVING,
    };
    ExpandedMode { name: dst.name, offset: turned(saving_west) }
}

/// Turns a `TZ` string into offsets.
///
/// A zone of the registry stays what it is. Parts that are out of range give
/// the error that the check of the ranges gives. A rule's time of 24 hours is
/// in the range that POSIX allows and still no time of day: it gives an error
/// of its own.
pub fn parse_abstract<'a>(input: ParsedTz<'a>) -> (r: Result<TzOrExpanded<'a>, ParseError<'a>>)
    ensures
        match input {
            ParsedTz::Existing(zone) => r matches Ok(TzOrExpanded::Tz(t)) && t == zone,
            ParsedTz::Expanded(parts) => match range_check(
                TzView::Expanded { std: parts.0@, dst: dst_view(parts.1) },
            ) {
                Err(range) => r matches Err(ParseError::Range(e)) && e == range,
                Ok(()) => if rule_on_clock(dst_view(parts.1)) {
                    r matches Ok(TzOrExpanded::Expanded(x)) && is_expansion(
                        parts.0@,
                        dst_view(parts.1),
                        x,
                    )
                } else {
                    r matches Err(ParseError::ComponentRange)
                },
            },
        },
{
    match input {
        ParsedTz::Existing(zone) => Ok(TzOrExpanded::Tz(zone)),
        ParsedTz::Expanded((std, dst)) => {
            match (WrittenTz::Expanded { std, dst }).ensure_valid_range() {
                Ok(()) => {},
                Err(e) => {
                    return Err(ParseError::Range(e));
                },
            }
            match expand(&std, &dst) {
                Some(x) => Ok(TzOrExpanded::Expanded(x)),
                None => Err(ParseError::ComponentRange),
            }
        },
    }
}

/// Standard time and daylight saving time as written, as offsets.
fn expand<'a>(std: &Std<'a>, dst: &Option<Dst<'a>>) -> (r: Option<ExpandedTz<'a>>)
    requires
        parts_in_range(std@, dst_view(*dst)),
    ensures
        r is Some <==> rule_on_clock(dst_view(*dst)),
        r matches Some(x) ==> is_expansion(std@, dst_view(*dst), x),
{
    proof {
        lemma_offset_bound(std.offset);
    }
    let std_mode = ExpandedMode { name: std.name, offset: turned(std.offset.to_seconds()) };
    match dst {
        None => Some(ExpandedTz { std: std_mode, dst: None, rule: None, reference: default_reference() }),
        Some(v) => {
            let mode = expand_dst(std, v);
            match &v.rule {
                None => Some(
                    ExpandedTz { std: std_mode, dst: Some(mode), rule: None, reference: default_reference() },
                ),
                Some(written) => match expand_rule(written) {
                    Some(rule) => Some(
                        ExpandedTz {
                            std: std_mode,
                            dst: Some(mode),
                            rule: Some(rule),
                            reference: default_reference(),
                        },
                    ),
                    None => None,
                },
            }
        },
    }
}

} // verus!
