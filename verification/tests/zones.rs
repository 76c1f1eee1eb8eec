use std::cmp::Ordering;

use time_tz::binary_search::binary_search;
use time_tz::datetime::{Date, OffsetDateTime, PrimitiveDateTime, Time, UtcOffset};
use time_tz::posix_tz::parser::{
    entry, Date as RuleDate, Dst, Offset as WrittenOffset, Rule, Std, Time as WrittenTime, Tz,
};
use time_tz::timezones;
use time_tz::zoned::Duration;
use time_tz::{
    Offset, OffsetDateTimeExt, OffsetResultExt, PrimitiveDateTimeExt, TimeZone, ToTimezone,
};

fn local(year: i32, month: u8, day: u8, hour: u8, minute: u8) -> PrimitiveDateTime {
    PrimitiveDateTime::new(
        Date::from_calendar_date(year, month, day).unwrap(),
        Time::from_hms(hour, minute, 0).unwrap(),
    )
}

fn hours(n: i32) -> UtcOffset {
    UtcOffset::from_whole_seconds(n * 3600).unwrap()
}

#[test]
fn test_binary_search() {
    assert_eq!(binary_search(0, 8, |x: usize| x.cmp(&6)), Some(6));
    assert_eq!(binary_search(0, 5000, |x: usize| x.cmp(&1337)), Some(1337));
    assert_eq!(binary_search(0, 5000, |x: usize| x.cmp(&9000)), None);
    assert_eq!(binary_search(30, 50, |x: usize| x.cmp(&42)), Some(42));
    assert_eq!(binary_search(300, 500, |x: usize| x.cmp(&42)), None);
    assert_eq!(
        binary_search(0, 500, |x: usize| if x < 42 {
            Ordering::Less
        } else {
            Ordering::Greater
        }),
        None
    );
}

#[test]
fn names() {
    let shanghai = timezones::get_by_name("Asia/Shanghai");
    let china = timezones::get_by_name("China Standard Time");
    assert!(shanghai.is_some());
    assert!(china.is_some());
    assert_eq!(shanghai, china);
}

#[test]
fn find() {
    let zones_iana = timezones::find_by_name("Asia");
    assert!(zones_iana.len() > 1);
}

#[test]
fn offsets_and_name() {
    let tz = timezones::db::europe::london();
    assert_eq!(tz.name(), "Europe/London");
    let now = time::OffsetDateTime::now_utc();
    let now = OffsetDateTime::from_unix_parts(now.unix_timestamp(), now.nanosecond()).unwrap();
    let offset = tz.get_offset_utc(&now);
    assert!(!offset.name().is_empty());
}

#[test]
fn london_to_berlin() {
    let london = timezones::db::europe::london();
    let berlin = timezones::db::europe::berlin();
    let dt = local(2016, 10, 8, 17, 0).assume_timezone_utc(&london);
    let converted = dt.to_timezone(&berlin);
    let expected = local(2016, 10, 8, 18, 0).assume_timezone_utc(&berlin);
    assert_eq!(converted, expected);
}

#[test]
fn london_to_berlin_name() {
    let london = timezones::db::europe::london();
    let berlin = timezones::db::europe::berlin();
    let dt = local(2016, 10, 8, 17, 0).assume_timezone_utc(&london);
    let converted = dt.to_timezone("Europe/Berlin").unwrap();
    let expected = local(2016, 10, 8, 18, 0).assume_timezone_utc(&berlin);
    assert_eq!(converted, expected);
}

#[test]
fn dst() {
    let london = timezones::db::europe::london();
    let odt1 = local(2021, 1, 1, 12, 0).assume_utc();
    assert_eq!(
        odt1.to_timezone(&london),
        local(2021, 1, 1, 12, 0).assume_offset(hours(0))
    );
    let odt2 = local(2021, 7, 1, 12, 0).assume_utc();
    assert_eq!(
        odt2.to_timezone(&london),
        local(2021, 7, 1, 12, 0).assume_utc().to_offset(hours(1))
    );
}

#[test]
fn handles_forward_changeover() {
    assert_eq!(
        local(2022, 3, 27, 1, 30)
            .assume_timezone(&timezones::db::cet())
            .unwrap(),
        local(2022, 3, 27, 1, 30).assume_offset(hours(1))
    );
}

#[test]
fn handles_after_changeover() {
    assert_eq!(
        local(2022, 3, 27, 3, 30)
            .assume_timezone(&timezones::db::cet())
            .unwrap(),
        local(2022, 3, 27, 3, 30).assume_offset(hours(2))
    );
}

#[test]
fn handles_broken_time() {
    assert!(local(2022, 3, 27, 2, 30)
        .assume_timezone(&timezones::db::cet())
        .is_undefined());
}

#[test]
fn handles_backward_changeover() {
    assert_eq!(
        local(2022, 10, 30, 2, 30)
            .assume_timezone(&timezones::db::cet())
            .unwrap_or_else(|e| e.unwrap_first()),
        local(2022, 10, 30, 2, 30).assume_offset(hours(2))
    );
    assert_eq!(
        local(2022, 10, 30, 2, 30)
            .assume_timezone(&timezones::db::cet())
            .unwrap_or_else(|e| e.unwrap_second()),
        local(2022, 10, 30, 2, 30).assume_offset(hours(1))
    );
}

#[test]
fn handles_replace_time_in_timezone_from_primitive() {
    assert_eq!(
        local(2023, 3, 26, 0, 0)
            .assume_timezone(&timezones::db::europe::stockholm())
            .unwrap(),
        local(2023, 3, 25, 23, 0).assume_utc()
    );
}

#[test]
fn handles_replace_time_in_timezone() {
    let stockholm = timezones::db::europe::stockholm();
    assert_eq!(
        OffsetDateTimeExt::with_timezone(&local(2023, 3, 26, 6, 0).assume_utc(), &stockholm)
            .replace_time(Time::midnight())
            .unwrap()
            .offset_date_time(),
        local(2023, 3, 25, 23, 0).assume_utc()
    );
}

#[test]
fn zoned_date_time_add_duration() {
    let stockholm = timezones::db::europe::stockholm();
    let zoned = |y, m, d, h| {
        PrimitiveDateTimeExt::with_timezone(local(y, m, d, h, 0), &stockholm).unwrap()
    };
    assert_eq!(
        (zoned(2023, 1, 1, 22) + Duration::days(1)).offset_date_time(),
        zoned(2023, 1, 2, 22).offset_date_time()
    );
    assert_eq!(
        (zoned(2023, 3, 25, 22) + Duration::days(1)).offset_date_time(),
        zoned(2023, 3, 26, 22).offset_date_time()
    );
    assert_eq!(
        (zoned(2023, 3, 25, 22) + Duration::hours(24)).offset_date_time(),
        zoned(2023, 3, 26, 23).offset_date_time()
    );
    assert_eq!(
        (zoned(2023, 3, 26, 1) + Duration::hours(1)).offset_date_time(),
        zoned(2023, 3, 26, 3).offset_date_time()
    );
}

#[test]
fn errors() {
    let budapest = timezones::db::europe::budapest();
    let datetime = local(2024, 3, 31, 2, 30).assume_timezone(&budapest);
    assert!(datetime.is_undefined());
    let datetime = local(2024, 3, 31, 2, 29).assume_timezone(&budapest);
    assert!(datetime.is_undefined());
}

fn written_example() -> Tz<'static> {
    Tz::Expanded {
        std: Std {
            name: "ABC",
            offset: WrittenOffset {
                positive: true,
                time: WrittenTime {
                    hh: 1,
                    mm: Some(0),
                    ss: None,
                },
            },
        },
        dst: Some(Dst {
            name: "DEF",
            offset: None,
            rule: Some(Rule {
                start: (
                    RuleDate::M { m: 1, n: 2, d: 3 },
                    Some(WrittenTime {
                        hh: 4,
                        mm: None,
                        ss: None,
                    }),
                ),
                end: (RuleDate::N(56), None),
            }),
        }),
    }
}

#[test]
fn parse_tz_basic() {
    let str = "ABC+1:00DEF,M1.2.3/4,56";
    let test = entry(str).unwrap();
    assert_eq!(test, written_example())
}

#[test]
fn parser_basic() {
    let str = "ABC+1:00DEF,M1.2.3/4,56";
    let test = entry(str).unwrap();
    assert_eq!(test, written_example())
}

#[test]
fn the_gap_begins_undefined_and_ends_defined() {
    let london = timezones::db::europe::london();
    // On 2021-03-28 the clocks of London went from one o'clock to two.
    assert_eq!(
        local(2021, 3, 28, 0, 59).assume_timezone(&london).unwrap(),
        local(2021, 3, 28, 0, 59).assume_offset(hours(0))
    );
    assert!(local(2021, 3, 28, 1, 0).assume_timezone(&london).is_undefined());
    assert!(local(2021, 3, 28, 1, 59).assume_timezone(&london).is_undefined());
    let after = local(2021, 3, 28, 2, 0).assume_timezone(&london);
    assert!(after.is_some());
    assert_eq!(after.unwrap().offset(), hours(1));
}

#[test]
fn the_repeated_hour_has_its_two_offsets_in_order() {
    let london = timezones::db::europe::london();
    // On 2021-10-31 the clocks of London went from two o'clock back to one.
    assert_eq!(
        local(2021, 10, 31, 0, 59).assume_timezone(&london).unwrap().offset(),
        hours(1)
    );
    for minute in [0, 30, 59] {
        let twice = local(2021, 10, 31, 1, minute).assume_timezone(&london);
        assert!(twice.is_ambiguous());
        assert_eq!(twice.unwrap_first().offset(), hours(1));
        assert_eq!(twice.unwrap_second().offset(), hours(0));
        assert_eq!(twice.take_first().map(|d| d.offset()), Some(hours(1)));
        assert_eq!(twice.take_second().map(|d| d.offset()), Some(hours(0)));
        let by_zone = london.get_offset_local(&local(2021, 10, 31, 1, minute).assume_utc());
        assert_eq!(by_zone.unwrap_first().name(), "BST");
        assert_eq!(by_zone.unwrap_second().name(), "GMT");
    }
    assert_eq!(
        local(2021, 10, 31, 2, 0).assume_timezone(&london).unwrap().offset(),
        hours(0)
    );
}

#[test]
fn zoned_date_times_are_compared() {
    let stockholm = timezones::db::europe::stockholm();
    let a = PrimitiveDateTimeExt::with_timezone(local(2023, 1, 1, 22, 0), &stockholm).unwrap();
    let b = PrimitiveDateTimeExt::with_timezone(local(2023, 1, 1, 22, 0), &stockholm).unwrap();
    let c = b + Duration::days(1);
    assert_eq!(a, b);
    assert_ne!(a, c);
    assert_eq!(c - Duration::days(1), a);
}

#[test]
fn a_name_of_a_zone_and_of_a_vendor_is_the_zone() {
    let utc = timezones::get_by_name("UTC").unwrap();
    assert_eq!(utc.name(), "UTC");
    assert_eq!(utc, timezones::db::utc());
    let at = local(2021, 7, 1, 12, 0).assume_utc();
    assert_eq!(at.to_timezone("UTC").unwrap().offset(), hours(0));
    assert_eq!(at.checked_to_timezone("UTC").unwrap().offset(), hours(0));
    assert_eq!(at.checked_to_timezone("Europe/Berlin").unwrap().offset(), hours(2));
    assert_eq!(at.checked_to_timezone("W. Europe Standard Time").unwrap().offset(), hours(2));
    assert_eq!(at.checked_to_timezone("Nowhere"), None);
}
