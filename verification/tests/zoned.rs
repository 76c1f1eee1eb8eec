use time_tz::datetime::{Date, OffsetDateTime, PrimitiveDateTime, SignedDuration, Time};
use time_tz::ext::{OffsetDateTimeExt, OffsetResultExt, PrimitiveDateTimeExt};
use time_tz::interface::TimeZone;
use time_tz::timezone_impl::Tz;
use time_tz::timezones;
use time_tz::zoned::{Duration, ZonedDateTime};

fn local(year: i32, month: u8, day: u8, hour: u8, minute: u8) -> PrimitiveDateTime {
    PrimitiveDateTime::new(
        Date::from_calendar_date(year, month, day).unwrap(),
        Time::from_hms(hour, minute, 0).unwrap(),
    )
}

fn whole(seconds: i64) -> SignedDuration {
    SignedDuration { seconds, nanoseconds: 0 }
}

fn reads(z: &ZonedDateTime<Tz>) -> (PrimitiveDateTime, i32) {
    (z.offset_date_time().date_time(), z.offset().whole_seconds())
}

#[test]
fn spans_count_as_the_calendar_counts_them() {
    assert_eq!(Duration::weeks(2), Duration::Date(whole(time::Duration::weeks(2).whole_seconds())));
    assert_eq!(Duration::days(-3), Duration::Date(whole(time::Duration::days(-3).whole_seconds())));
    assert_eq!(Duration::hours(5), Duration::Time(whole(time::Duration::hours(5).whole_seconds())));
    assert_eq!(Duration::minutes(7), Duration::Time(whole(time::Duration::minutes(7).whole_seconds())));
    assert_eq!(Duration::seconds(9), Duration::Time(whole(time::Duration::seconds(9).whole_seconds())));
}

#[test]
fn spans_count_in_seconds() {
    assert_eq!(Duration::weeks(2), Duration::Date(whole(1_209_600)));
    assert_eq!(Duration::days(3), Duration::Date(whole(259_200)));
    assert_eq!(Duration::days(-1), Duration::Date(whole(-86_400)));
    assert_eq!(Duration::hours(5), Duration::Time(whole(18_000)));
    assert_eq!(Duration::minutes(7), Duration::Time(whole(420)));
    assert_eq!(Duration::seconds(-9), Duration::Time(whole(-9)));
}

#[test]
fn a_zoned_date_time_keeps_its_zone() {
    let stockholm = timezones::db::europe::stockholm();
    let z = ZonedDateTime::from_local(local(2023, 7, 1, 12, 30), &stockholm).unwrap();
    assert_eq!(z.date(), Date::from_calendar_date(2023, 7, 1).unwrap());
    assert_eq!(z.time(), Time::from_hms(12, 30, 0).unwrap());
    assert_eq!(z.offset().whole_seconds(), 7200);
    assert_eq!(z.timezone().name(), "Europe/Stockholm");
    assert_eq!(z.offset_date_time().unix_timestamp(), local(2023, 7, 1, 10, 30).assume_utc().unix_timestamp());
    let copy = z;
    assert_eq!(reads(&copy), reads(&z));
    let from_utc = ZonedDateTime::from_utc(local(2023, 7, 1, 10, 30).assume_utc(), &stockholm);
    assert_eq!(reads(&from_utc), reads(&z));
    let tokyo = timezones::db::asia::tokyo();
    let moved = z.replace_timezone(&tokyo);
    assert_eq!(moved.timezone().name(), "Asia/Tokyo");
    assert_eq!(reads(&moved), (local(2023, 7, 1, 19, 30), 32_400));
    assert_eq!(moved.offset_date_time(), z.offset_date_time());
    let with = OffsetDateTimeExt::with_timezone(&z.offset_date_time(), &tokyo);
    assert_eq!(reads(&with), reads(&moved));
    let with = PrimitiveDateTimeExt::with_timezone(local(2023, 7, 1, 12, 30), &stockholm).unwrap();
    assert_eq!(reads(&with), reads(&z));
}

#[test]
fn a_zoned_date_time_tells_what_cannot_be() {
    let stockholm = timezones::db::europe::stockholm();
    assert!(ZonedDateTime::from_local(local(2023, 3, 26, 2, 30), &stockholm).is_undefined());
    let twice = ZonedDateTime::from_local(local(2023, 10, 29, 2, 30), &stockholm);
    assert!(twice.is_ambiguous());
    assert_eq!(reads(&twice.unwrap_first()), (local(2023, 10, 29, 2, 30), 7200));
    assert_eq!(reads(&twice.unwrap_second()), (local(2023, 10, 29, 2, 30), 3600));
}

#[test]
fn replacing_a_part_resolves_again() {
    let stockholm = timezones::db::europe::stockholm();
    let winter = ZonedDateTime::from_local(local(2023, 1, 10, 2, 30), &stockholm).unwrap();
    assert_eq!(winter.offset().whole_seconds(), 3600);
    let summer = winter
        .replace_date(Date::from_calendar_date(2023, 7, 10).unwrap())
        .unwrap();
    assert_eq!(reads(&summer), (local(2023, 7, 10, 2, 30), 7200));
    assert!(winter
        .replace_date(Date::from_calendar_date(2023, 3, 26).unwrap())
        .is_undefined());
    assert!(winter
        .replace_date(Date::from_calendar_date(2023, 10, 29).unwrap())
        .is_ambiguous());
    let day = ZonedDateTime::from_local(local(2023, 3, 26, 12, 0), &stockholm).unwrap();
    assert_eq!(
        reads(&day.replace_time(Time::from_hms(1, 0, 0).unwrap()).unwrap()),
        (local(2023, 3, 26, 1, 0), 3600)
    );
    assert!(day.replace_time(Time::from_hms(2, 0, 0).unwrap()).is_undefined());
    assert_eq!(
        reads(&day.replace_time(Time::from_hms(3, 0, 0).unwrap()).unwrap()),
        (local(2023, 3, 26, 3, 0), 7200)
    );
}

#[test]
fn days_move_the_reading() {
    let stockholm = timezones::db::europe::stockholm();
    let z = ZonedDateTime::from_local(local(2023, 3, 25, 22, 0), &stockholm).unwrap();
    assert_eq!(reads(&(z + Duration::days(1))), (local(2023, 3, 26, 22, 0), 7200));
    assert_eq!(reads(&(z + Duration::weeks(1))), (local(2023, 4, 1, 22, 0), 7200));
    assert_eq!(reads(&(z - Duration::days(1))), (local(2023, 3, 24, 22, 0), 3600));
    assert_eq!(reads(&(z - Duration::days(-1))), (local(2023, 3, 26, 22, 0), 7200));
    assert_eq!(z.checked_add(Duration::days(1)).map(|r| reads(&r)), Some((local(2023, 3, 26, 22, 0), 7200)));
    // A day on, the reading is one that the clocks skip.
    let z = ZonedDateTime::from_local(local(2023, 3, 25, 2, 30), &stockholm).unwrap();
    assert!(z.checked_add(Duration::days(1)).is_none());
    assert!(z.checked_add(Duration::days(2)).is_some());
    // A day on, the reading occurs twice: the first is taken.
    let z = ZonedDateTime::from_local(local(2023, 10, 28, 2, 30), &stockholm).unwrap();
    assert_eq!(reads(&(z + Duration::days(1))), (local(2023, 10, 29, 2, 30), 7200));
    // Out of the calendar.
    assert!(z.checked_add(Duration::Date(whole(i64::MAX))).is_none());
    assert!(z.checked_sub(Duration::Date(whole(i64::MAX))).is_none());
    assert!(z.checked_sub(Duration::Date(whole(i64::MIN))).is_none());
    assert!(z.checked_add(Duration::Time(whole(i64::MAX))).is_none());
    assert!(z.checked_sub(Duration::Time(whole(i64::MIN))).is_none());
}

#[test]
fn clock_time_moves_the_reading_by_the_offset_too() {
    let stockholm = timezones::db::europe::stockholm();
    let z = ZonedDateTime::from_local(local(2023, 3, 25, 22, 0), &stockholm).unwrap();
    assert_eq!(reads(&(z + Duration::hours(24))), (local(2023, 3, 26, 23, 0), 7200));
    let z = ZonedDateTime::from_local(local(2023, 3, 26, 1, 0), &stockholm).unwrap();
    assert_eq!(reads(&(z + Duration::hours(1))), (local(2023, 3, 26, 3, 0), 7200));
    // Half an hour and the hour of the offset on, the reading is one that
    // the clocks skip.
    assert!(z.checked_add(Duration::minutes(30)).is_none());
    assert_eq!(
        z.checked_add(Duration::seconds(3600)).map(|r| reads(&r)),
        Some((local(2023, 3, 26, 3, 0), 7200))
    );
    let z = ZonedDateTime::from_local(local(2023, 1, 1, 12, 0), &stockholm).unwrap();
    assert_eq!(reads(&(z + Duration::hours(1))), (local(2023, 1, 1, 14, 0), 3600));
    assert_eq!(reads(&(z - Duration::hours(1))), (local(2023, 1, 1, 10, 0), 3600));
    assert_eq!(reads(&(z + Duration::seconds(0))), (local(2023, 1, 1, 13, 0), 3600));
    let z = ZonedDateTime::from_local(local(2023, 3, 26, 3, 0), &stockholm).unwrap();
    assert_eq!(reads(&(z - Duration::hours(1))), (local(2023, 3, 26, 0, 0), 3600));
    assert_eq!(
        z.checked_sub(Duration::minutes(30)).map(|r| reads(&r)),
        Some((local(2023, 3, 26, 0, 30), 3600))
    );
}

#[test]
fn nanoseconds_are_carried() {
    let stockholm = timezones::db::europe::stockholm();
    let start = PrimitiveDateTime::new(
        Date::from_calendar_date(2023, 1, 1).unwrap(),
        Time::from_hms_nano(12, 0, 0, 600_000_000).unwrap(),
    );
    let z = ZonedDateTime::from_local(start, &stockholm).unwrap();
    let at = |hour, minute, second, nano| {
        PrimitiveDateTime::new(
            Date::from_calendar_date(2023, 1, 1).unwrap(),
            Time::from_hms_nano(hour, minute, second, nano).unwrap(),
        )
    };
    let span = |seconds, nanoseconds| SignedDuration { seconds, nanoseconds };
    assert_eq!(reads(&(z + Duration::Date(span(1, 500_000_000)))).0, at(12, 0, 2, 100_000_000));
    assert_eq!(reads(&(z + Duration::Date(span(0, 399_999_999)))).0, at(12, 0, 0, 999_999_999));
    assert_eq!(reads(&(z - Duration::Date(span(1, 700_000_000)))).0, at(11, 59, 58, 900_000_000));
    assert_eq!(reads(&(z + Duration::Date(span(1, -700_000_000)))).0, at(12, 0, 0, 900_000_000));
    assert_eq!(reads(&(z - Duration::Date(span(0, i32::MIN)))).0, at(12, 0, 2, 747_483_648));
    assert_eq!(reads(&(z + Duration::Date(span(0, i32::MIN)))).0, at(11, 59, 58, 452_516_352));
    // A span of clock time moves the reading by the offset too.
    assert_eq!(reads(&(z + Duration::Time(span(0, 500_000_000)))).0, at(13, 0, 1, 100_000_000));
    assert_eq!(reads(&(z - Duration::Time(span(0, 700_000_000)))).0, at(10, 59, 59, 900_000_000));
    assert_eq!(reads(&(z - Duration::Date(span(1, 600_000_001)))).0, at(11, 59, 58, 999_999_999));
}
