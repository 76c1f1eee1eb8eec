use std::cmp::Ordering::{Equal, Greater, Less};

use time_tz::datetime::{OffsetDateTime, PrimitiveDateTime, UtcOffset};
use time_tz::ext::{OffsetDateTimeExt, OffsetResultExt, PrimitiveDateTimeExt};
use time_tz::interface::{Offset, OffsetError, OffsetResult, TimeZone, ToTimezone};
use time_tz::timezone_impl::{
    internal_tz_new, FixedTimespan, FixedTimespanSet, Span, Tz, TzOffset, MAX_TRANSITION,
};
use time_tz::timezones;

fn span(utc: i64, dst: i64, name: &'static str) -> FixedTimespan {
    FixedTimespan::new(utc, dst, name).unwrap()
}

fn at(seconds: i64) -> OffsetDateTime {
    OffsetDateTime::from_unix_timestamp(seconds).unwrap()
}

// Winter at +1 hour; summer at +2 hours from 10 000 000 up to 20 000 000.
fn sample() -> Tz {
    let set = FixedTimespanSet::new("Sample", span(3600, 0, "WIN"))
        .checked_push(10_000_000, span(3600, 3600, "SUM"))
        .unwrap()
        .checked_push(20_000_000, span(3600, 0, "WIN"))
        .unwrap();
    internal_tz_new(set)
}

fn seconds(r: &OffsetResult<TzOffset>) -> Result<i64, Option<(i64, i64)>> {
    match r {
        Ok(o) => Ok(o.timespan.total_offset()),
        Err(OffsetError::Ambiguous(a, b)) => {
            Err(Some((a.timespan.total_offset(), b.timespan.total_offset())))
        }
        Err(OffsetError::Undefined) => Err(None),
    }
}

fn by_scanning_instants(tz: &Tz, instant: i64) -> usize {
    let set = tz.timespans();
    let mut i = 0;
    while i + 1 < set.len() && set.transition(i + 1) <= instant {
        i += 1;
    }
    i
}

fn by_scanning_readings(tz: &Tz, reading: i64) -> Result<i64, Option<(i64, i64)>> {
    let set = tz.timespans();
    let mut found = Vec::new();
    for i in 0..set.len() {
        if set.span_local(i).contains(reading) {
            found.push(set.index(i).total_offset());
        }
    }
    match found.len() {
        0 => Err(None),
        1 => Ok(found[0]),
        2 => Err(Some((found[0], found[1]))),
        n => panic!("{} spans hold one reading", n),
    }
}

#[test]
fn spans_hold_what_lies_between_their_ends() {
    let both = Span { start: Some(10), end: Some(20) };
    let left = Span { start: None, end: Some(20) };
    let right = Span { start: Some(10), end: None };
    let open = Span { start: None, end: None };
    for (x, b, l, r) in [
        (9, false, true, false),
        (10, true, true, true),
        (19, true, true, true),
        (20, false, false, true),
    ] {
        assert_eq!(both.contains(x), b);
        assert_eq!(left.contains(x), l);
        assert_eq!(right.contains(x), r);
        assert!(open.contains(x));
    }
    assert_eq!(both.cmp(9), Greater);
    assert_eq!(both.cmp(10), Equal);
    assert_eq!(both.cmp(19), Equal);
    assert_eq!(both.cmp(20), Less);
    assert_eq!(left.cmp(i64::MIN), Equal);
    assert_eq!(left.cmp(20), Less);
    assert_eq!(right.cmp(9), Greater);
    assert_eq!(right.cmp(i64::MAX), Equal);
    assert_eq!(open.cmp(0), Equal);
}

#[test]
fn regimes_are_under_twenty_six_hours() {
    assert!(FixedTimespan::new(93_599, 0, "X").is_some());
    assert!(FixedTimespan::new(90_000, 3599, "X").is_some());
    assert!(FixedTimespan::new(90_000, 3600, "X").is_none());
    assert!(FixedTimespan::new(-93_600, 0, "X").is_none());
    assert!(FixedTimespan::new(i64::MAX, i64::MAX, "X").is_none());
    assert!(FixedTimespan::new(i64::MAX, -i64::MAX, "X").is_some());
    let s = span(3600, 1800, "HALF");
    assert_eq!((s.utc_offset(), s.dst_offset(), s.name(), s.total_offset()), (3600, 1800, "HALF", 5400));
}

#[test]
fn tables_take_only_what_can_follow() {
    let one = || FixedTimespanSet::new("T", span(0, 0, "A"));
    assert_eq!(one().len(), 1);
    assert!(one().checked_push(MAX_TRANSITION, span(0, 0, "B")).is_some());
    assert!(one().checked_push(MAX_TRANSITION + 1, span(0, 0, "B")).is_none());
    assert!(one().checked_push(-MAX_TRANSITION - 1, span(0, 0, "B")).is_none());
    let two = || one().checked_push(1000, span(3600, 0, "B")).unwrap();
    assert_eq!(two().len(), 2);
    // The instants must grow.
    assert!(two().checked_push(1000, span(0, 0, "C")).is_none());
    assert!(two().checked_push(999, span(0, 0, "C")).is_none());
    // A span must not end, on the clocks, before the one before it ends.
    let back = || {
        FixedTimespanSet::new("T", span(7200, 0, "A"))
            .checked_push(1000, span(0, 0, "B"))
            .unwrap()
    };
    assert!(back().checked_push(1001, span(0, 0, "C")).is_none());
    assert!(back().checked_push(8199, span(0, 0, "C")).is_none());
    assert!(back().checked_push(8200, span(0, 0, "C")).is_some());
    assert!(two().checked_push(1001, span(3600, 0, "C")).is_some());
    // A span must not begin, on the clocks, before the one before it begins.
    assert!(two().checked_push(4600, span(-3600, 0, "C")).is_none());
    assert!(two().checked_push(8200, span(-3600, 0, "C")).is_some());
    let three = two().checked_push(8200, span(-3600, 0, "C")).unwrap();
    assert_eq!(three.len(), 3);
    assert_eq!(three.name(), "T");
    assert_eq!(three.index(0), span(0, 0, "A"));
    assert_eq!(three.index(2), span(-3600, 0, "C"));
    assert_eq!(three.transition(1), 1000);
    assert_eq!(three.transition(2), 8200);
    assert_eq!(three.span_utc(0), Span { start: None, end: Some(1000) });
    assert_eq!(three.span_utc(1), Span { start: Some(1000), end: Some(8200) });
    assert_eq!(three.span_utc(2), Span { start: Some(8200), end: None });
    assert_eq!(three.span_local(0), Span { start: None, end: Some(1000) });
    assert_eq!(three.span_local(1), Span { start: Some(4600), end: Some(11_800) });
    assert_eq!(three.span_local(2), Span { start: Some(4600), end: None });
    assert_eq!(three.clone(), three);
}

#[test]
fn every_instant_has_one_offset() {
    let tz = sample();
    for (instant, name, total, dst) in [
        (-377_705_116_800, "WIN", 3600, false),
        (9_999_999, "WIN", 3600, false),
        (10_000_000, "SUM", 7200, true),
        (19_999_999, "SUM", 7200, true),
        (20_000_000, "WIN", 3600, false),
        (253_402_300_799, "WIN", 3600, false),
    ] {
        let offset = tz.get_offset_utc(&at(instant));
        assert_eq!(offset.name(), name);
        assert_eq!(offset.to_utc().whole_seconds(), total);
        assert_eq!(offset.is_dst(), dst);
    }
    assert_eq!(tz.get_offset_primary().timespan, span(3600, 0, "WIN"));
    assert_eq!(tz.name(), "Sample");
}

#[test]
fn a_zone_of_one_span_has_every_reading_once() {
    let tz = internal_tz_new(FixedTimespanSet::new("Fixed", span(19_800, 0, "IST")));
    for reading in [-377_705_116_800, -1, 0, 1, 1_700_000_000, 253_402_300_799] {
        assert_eq!(seconds(&tz.get_offset_local(&at(reading))), Ok(19_800));
        assert_eq!(tz.get_offset_utc(&at(reading)).timespan, span(19_800, 0, "IST"));
    }
    let utc = timezones::db::utc();
    assert_eq!(seconds(&utc.get_offset_local(&at(0))), Ok(0));
}

#[test]
fn the_skipped_hour_is_undefined() {
    let tz = sample();
    // The clocks go from 10 003 600 straight to 10 007 200.
    assert_eq!(seconds(&tz.get_offset_local(&at(10_003_599))), Ok(3600));
    assert_eq!(seconds(&tz.get_offset_local(&at(10_003_600))), Err(None));
    assert_eq!(seconds(&tz.get_offset_local(&at(10_007_199))), Err(None));
    assert_eq!(seconds(&tz.get_offset_local(&at(10_007_200))), Ok(7200));
    assert!(tz.get_offset_local(&at(10_003_600)).is_undefined());
    assert!(tz.get_offset_local(&at(10_003_600)).is_none());
    assert!(!tz.get_offset_local(&at(10_003_600)).is_ambiguous());
    assert!(tz.get_offset_local(&at(10_007_200)).is_some());
}

#[test]
fn the_repeated_hour_is_ambiguous() {
    let tz = sample();
    // The clocks go from 20 007 200 back to 20 003 600.
    assert_eq!(seconds(&tz.get_offset_local(&at(20_003_599))), Ok(7200));
    assert_eq!(seconds(&tz.get_offset_local(&at(20_003_600))), Err(Some((7200, 3600))));
    assert_eq!(seconds(&tz.get_offset_local(&at(20_007_199))), Err(Some((7200, 3600))));
    assert_eq!(seconds(&tz.get_offset_local(&at(20_007_200))), Ok(3600));
    let twice = tz.get_offset_local(&at(20_005_000));
    assert!(twice.is_ambiguous());
    assert!(!twice.is_some());
    assert!(!twice.is_undefined());
    assert_eq!(twice.unwrap_first().timespan, span(3600, 3600, "SUM"));
    assert_eq!(twice.unwrap_second().timespan, span(3600, 0, "WIN"));
    assert_eq!(twice.take_first().map(|o| o.timespan), Some(span(3600, 3600, "SUM")));
    assert_eq!(twice.take_second().map(|o| o.timespan), Some(span(3600, 0, "WIN")));
    let error = twice.unwrap_err();
    assert!(error.is_ambiguous());
    assert!(!error.is_undefined());
    assert_eq!(error.unwrap_first().timespan, span(3600, 3600, "SUM"));
    assert_eq!(error.unwrap_second().timespan, span(3600, 0, "WIN"));
    assert_eq!(error.take_first().map(|o| o.timespan), Some(span(3600, 3600, "SUM")));
    assert_eq!(error.take_second().map(|o| o.timespan), Some(span(3600, 0, "WIN")));
    assert_eq!(
        error.map(|o| o.timespan.total_offset()).unwrap_first(),
        7200
    );
    assert_eq!(error.as_ref().unwrap_second().timespan, span(3600, 0, "WIN"));
}

#[test]
fn results_give_what_they_hold() {
    let one: OffsetResult<i32> = Ok(1);
    let two: OffsetResult<i32> = Err(OffsetError::Ambiguous(2, 3));
    let none: OffsetResult<i32> = Err(OffsetError::Undefined);
    assert_eq!(one.unwrap_first(), 1);
    assert_eq!(one.unwrap_second(), 1);
    assert_eq!(two.unwrap_first(), 2);
    assert_eq!(two.unwrap_second(), 3);
    assert_eq!((one.take_first(), two.take_first(), none.take_first()), (Some(1), Some(2), None));
    assert_eq!((one.take_second(), two.take_second(), none.take_second()), (Some(1), Some(3), None));
    assert_eq!((one.is_some(), two.is_some(), none.is_some()), (true, false, false));
    assert_eq!((one.is_none(), two.is_none(), none.is_none()), (false, false, true));
    assert_eq!((one.is_undefined(), two.is_undefined(), none.is_undefined()), (false, false, true));
    assert_eq!((one.is_ambiguous(), two.is_ambiguous(), none.is_ambiguous()), (false, true, false));
    assert_eq!(one.map_all(|v| v * 10).unwrap_first(), 10);
    assert_eq!(two.map_all(|v| v * 10).unwrap_first(), 20);
    assert_eq!(two.map_all(|v| v * 10).unwrap_second(), 30);
    assert!(none.map_all(|v| v * 10).is_undefined());
    let undefined: OffsetError<i32> = OffsetError::Undefined;
    assert!(undefined.is_undefined());
    assert!(undefined.map(|v| v + 1).is_undefined());
    assert!(undefined.as_ref().is_undefined());
    assert_eq!(undefined.take_first(), None);
    assert_eq!(undefined.take_second(), None);
}

#[test]
fn asking_again_gives_the_same() {
    let tz = timezones::db::europe::london();
    let again = timezones::db::europe::london();
    for instant in [-3_852_662_325, 0, 1_616_893_200, 1_635_642_000, 2_000_000_000] {
        assert_eq!(tz.get_offset_utc(&at(instant)), again.get_offset_utc(&at(instant)));
        assert_eq!(tz.get_offset_utc(&at(instant)), tz.get_offset_utc(&at(instant)));
        assert_eq!(
            seconds(&tz.get_offset_local(&at(instant))),
            seconds(&again.get_offset_local(&at(instant)))
        );
    }
}

#[test]
fn the_search_finds_what_a_scan_finds() {
    for tz in timezones::iter() {
        let set = tz.timespans();
        for i in 1..set.len() {
            let t = set.transition(i);
            for instant in [t - 86_400, t - 1, t, t + 1, t + 86_400] {
                let index = by_scanning_instants(&tz, instant);
                assert_eq!(tz.get_offset_utc(&at(instant)).timespan, set.index(index));
            }
            let before = set.index(i - 1).total_offset();
            let after = set.index(i).total_offset();
            for reading in [
                t + before - 1,
                t + before,
                t + before + 1,
                t + after - 1,
                t + after,
                t + after + 1,
                t + (before + after) / 2,
            ] {
                assert_eq!(
                    seconds(&tz.get_offset_local(&at(reading))),
                    by_scanning_readings(&tz, reading),
                    "{} at {}",
                    tz.name(),
                    reading
                );
            }
        }
    }
}

#[test]
fn there_and_back_is_where_one_began() {
    for tz in timezones::iter() {
        let set = tz.timespans();
        let mut instants = vec![-377_705_000_000, 0, 253_402_200_000];
        for i in 1..set.len() {
            instants.push(set.transition(i) - 1);
            instants.push(set.transition(i));
        }
        for instant in instants {
            let start = OffsetDateTime::from_unix_parts(instant, 123).unwrap();
            let there = start.to_timezone(&tz);
            assert_eq!(there.unix_timestamp(), instant);
            assert_eq!(there.offset(), tz.get_offset_utc(&start).to_utc());
            let back = there.to_utc();
            assert_eq!(back.unix_timestamp(), instant);
            assert_eq!(back.offset(), UtcOffset::utc());
            assert_eq!(back.date_time(), start.date_time());
            assert_eq!(back, start);
            assert_eq!(start.checked_to_timezone(&tz), Some(there));
        }
    }
}

#[test]
fn a_reading_out_of_the_calendar_is_not_converted() {
    let tokyo = timezones::db::asia::tokyo();
    let last = OffsetDateTime::from_unix_timestamp(253_402_300_799).unwrap();
    assert_eq!(last.checked_to_timezone(&tokyo), None);
    assert_eq!(last.checked_to_timezone("Asia/Tokyo"), None);
    assert_eq!(last.checked_to_timezone("Nowhere"), None);
    let new_york = timezones::db::america::new_york();
    assert!(last.checked_to_timezone(&new_york).is_some());
    assert!(last.checked_to_timezone("America/New_York").is_some());
    assert_eq!(last.to_timezone("Nowhere"), None);
}

#[test]
fn readings_take_the_offsets_of_the_zone() {
    let tz = sample();
    let reading = |s| PrimitiveDateTime::from_local_seconds(s, 0).unwrap();
    let once = reading(5_000_000).assume_timezone(&tz).unwrap();
    assert_eq!(once.unix_timestamp(), 5_000_000 - 3600);
    assert_eq!(once.offset().whole_seconds(), 3600);
    assert!(reading(10_005_000).assume_timezone(&tz).is_undefined());
    let twice = reading(20_005_000).assume_timezone(&tz);
    assert_eq!(twice.unwrap_first().unix_timestamp(), 20_005_000 - 7200);
    assert_eq!(twice.unwrap_second().unix_timestamp(), 20_005_000 - 3600);
    // Taken as UTC, the reading 10 000 000 lies in summer.
    let summer = reading(10_000_000).assume_timezone_utc(&tz);
    assert_eq!(summer.offset().whole_seconds(), 7200);
    assert_eq!(summer.date_time(), reading(10_000_000));
    let winter = reading(9_999_999).assume_timezone_utc(&tz);
    assert_eq!(winter.offset().whole_seconds(), 3600);
}

#[test]
fn the_reading_that_the_clocks_show_resolves_to_the_offset() {
    for tz in timezones::iter() {
        let set = tz.timespans();
        let mut instants = vec![-377_705_000_000, 0, 253_402_200_000];
        for i in 1..set.len() {
            let t = set.transition(i);
            instants.extend([t - 3600, t - 1, t, t + 1, t + 3600]);
        }
        for instant in instants {
            let offset = tz.get_offset_utc(&at(instant));
            let shown = instant + offset.timespan.total_offset();
            let total = offset.timespan.total_offset();
            match seconds(&tz.get_offset_local(&at(shown))) {
                Ok(s) => assert_eq!(s, total, "{} at {}", tz.name(), instant),
                Err(Some((a, b))) => assert!(a == total || b == total, "{} at {}", tz.name(), instant),
                Err(None) => panic!("{} at {}", tz.name(), instant),
            }
        }
    }
}
