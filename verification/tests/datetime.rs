use time_tz::calendar::{MAX_JULIAN_DAY, MIN_JULIAN_DAY, UNIX_EPOCH_JULIAN_DAY};
use time_tz::datetime::{
    ComponentRange, Date, Month, OffsetDateTime, PrimitiveDateTime, Time, UtcOffset, Weekday,
    MAX_LOCAL_SECONDS, MAX_OFFSET_SECONDS, MIN_LOCAL_SECONDS,
};

fn month_of(number: u8) -> time::Month {
    time::Month::try_from(number).unwrap()
}

fn sunday_number(day: time::Weekday) -> u8 {
    day.number_days_from_sunday()
}

#[test]
fn bounds_are_those_of_the_calendar() {
    assert_eq!(time::Date::MIN.to_julian_day(), MIN_JULIAN_DAY);
    assert_eq!(time::Date::MAX.to_julian_day(), MAX_JULIAN_DAY);
    assert_eq!(
        time::OffsetDateTime::UNIX_EPOCH.to_julian_day(),
        UNIX_EPOCH_JULIAN_DAY
    );
    assert_eq!(
        time::Date::MIN.midnight().assume_utc().unix_timestamp(),
        MIN_LOCAL_SECONDS
    );
    assert_eq!(
        time::Date::MAX
            .with_hms(23, 59, 59)
            .unwrap()
            .assume_utc()
            .unix_timestamp(),
        MAX_LOCAL_SECONDS
    );
    assert!(time::UtcOffset::from_whole_seconds(MAX_OFFSET_SECONDS).is_ok());
    assert!(time::UtcOffset::from_whole_seconds(MAX_OFFSET_SECONDS + 1).is_err());
    assert!(time::UtcOffset::from_whole_seconds(-MAX_OFFSET_SECONDS).is_ok());
    assert!(time::UtcOffset::from_whole_seconds(-MAX_OFFSET_SECONDS - 1).is_err());
}

#[test]
fn calendar_dates_have_their_julian_days() {
    assert_eq!(
        Date::from_calendar_date(2000, 1, 1).unwrap().to_julian_day(),
        2_451_545
    );
    assert_eq!(
        Date::from_calendar_date(1970, 1, 1).unwrap().to_julian_day(),
        2_440_588
    );
    assert_eq!(
        Date::from_calendar_date(2019, 12, 31)
            .unwrap()
            .to_julian_day(),
        2_458_849
    );
    assert_eq!(
        Date::from_calendar_date(-9999, 1, 1).unwrap().to_julian_day(),
        MIN_JULIAN_DAY
    );
    assert_eq!(
        Date::from_calendar_date(9999, 12, 31)
            .unwrap()
            .to_julian_day(),
        MAX_JULIAN_DAY
    );
}

#[test]
fn calendar_dates_are_accepted_as_the_calendar_has_them() {
    for year in [-9999, -400, -1, 0, 1, 1900, 2000, 2019, 2020, 2021, 2100, 9999] {
        for month in 0..=13u8 {
            for day in 0..=32u8 {
                let ours = Date::from_calendar_date(year, month, day);
                let theirs = if (1..=12).contains(&month) {
                    time::Date::from_calendar_date(year, month_of(month), day).ok()
                } else {
                    None
                };
                assert_eq!(
                    ours.ok().map(|d| d.to_julian_day()),
                    theirs.map(|d| d.to_julian_day()),
                    "{}-{}-{}",
                    year,
                    month,
                    day
                );
            }
        }
    }
    assert_eq!(Date::from_calendar_date(10000, 1, 1), Err(ComponentRange));
    assert_eq!(Date::from_calendar_date(-10000, 1, 1), Err(ComponentRange));
    assert_eq!(Date::from_calendar_date(2019, 2, 29), Err(ComponentRange));
    assert!(Date::from_calendar_date(2020, 2, 29).is_ok());
    assert_eq!(Date::from_calendar_date(1900, 2, 29), Err(ComponentRange));
    assert!(Date::from_calendar_date(2000, 2, 29).is_ok());
}

#[test]
fn ordinal_dates_are_accepted_as_the_calendar_has_them() {
    for year in [-9999, 1900, 2000, 2019, 2020, 9999, 10000] {
        for ordinal in [0u16, 1, 59, 60, 61, 365, 366, 367] {
            assert_eq!(
                Date::from_ordinal_date(year, ordinal)
                    .ok()
                    .map(|d| d.to_julian_day()),
                time::Date::from_ordinal_date(year, ordinal)
                    .ok()
                    .map(|d| d.to_julian_day()),
                "{}-{}",
                year,
                ordinal
            );
        }
    }
    assert_eq!(
        Date::from_ordinal_date(2021, 60),
        Date::from_calendar_date(2021, 3, 1)
    );
    assert_eq!(
        Date::from_ordinal_date(2020, 60),
        Date::from_calendar_date(2020, 2, 29)
    );
    assert_eq!(Date::from_ordinal_date(2021, 366), Err(ComponentRange));
}

#[test]
fn julian_days_have_their_calendar_dates() {
    let mut day = MIN_JULIAN_DAY;
    while day <= MAX_JULIAN_DAY {
        let ours = Date::from_julian_day(day).unwrap();
        let theirs = time::Date::from_julian_day(day).unwrap();
        let (year, month, of_month) = ours.to_calendar_date();
        assert_eq!((year, month, of_month), (theirs.year(), u8::from(theirs.month()), theirs.day()));
        assert_eq!(ours.year(), theirs.year());
        assert_eq!(ours.month().to_number(), u8::from(theirs.month()));
        assert_eq!(ours.day(), theirs.day());
        assert_eq!(
            ours.weekday().number_days_from_sunday(),
            sunday_number(theirs.weekday())
        );
        assert_eq!(Date::from_calendar_date(year, month, of_month), Ok(ours));
        assert_eq!(
            ours.next_day().map(|d| d.to_julian_day()),
            theirs.next_day().map(|d| d.to_julian_day())
        );
        for days in [-4_000_000i64, -366, -1, 0, 1, 28, 366, 4_000_000] {
            assert_eq!(
                ours.checked_add_days(days).map(|d| d.to_julian_day()),
                theirs
                    .checked_add(time::Duration::days(days))
                    .map(|d| d.to_julian_day())
            );
        }
        day += 997;
    }
    assert_eq!(
        Date::from_calendar_date(2019, 1, 1).unwrap().to_calendar_date(),
        (2019, 1, 1)
    );
    assert_eq!(Date::from_julian_day(MIN_JULIAN_DAY - 1), Err(ComponentRange));
    assert_eq!(Date::from_julian_day(MAX_JULIAN_DAY + 1), Err(ComponentRange));
}

#[test]
fn weekdays_follow_the_julian_day() {
    // 2019-09-01 was a Sunday, 2019-07-01 a Monday.
    assert_eq!(
        Date::from_calendar_date(2019, 9, 1).unwrap().weekday(),
        Weekday::Sunday
    );
    assert_eq!(
        Date::from_calendar_date(2019, 7, 1).unwrap().weekday(),
        Weekday::Monday
    );
    assert_eq!(
        Date::from_calendar_date(2019, 6, 1).unwrap().weekday(),
        Weekday::Saturday
    );
    assert_eq!(Date::from_julian_day(0).unwrap().weekday(), Weekday::Monday);
    assert_eq!(Date::from_julian_day(-1).unwrap().weekday(), Weekday::Sunday);
    assert_eq!(Date::from_julian_day(-7).unwrap().weekday(), Weekday::Monday);
    for n in 0..=6u8 {
        assert_eq!(Weekday::from_days_from_sunday(n).number_days_from_sunday(), n);
    }
}

#[test]
fn months_follow_each_other() {
    for n in 1..=12u8 {
        assert_eq!(Month::from_number(n).to_number(), n);
        assert_eq!(Month::from_number(n).next().to_number(), n % 12 + 1);
    }
    assert_eq!(Month::December.next(), Month::January);
    for n in 1..=12u8 {
        assert_eq!(
            Month::from_number(n).next().to_number(),
            u8::from(month_of(n).next())
        );
    }
}

#[test]
fn days_are_added_within_the_calendar() {
    let day = Date::from_calendar_date(2020, 12, 31).unwrap();
    assert_eq!(
        day.next_day(),
        Some(Date::from_calendar_date(2021, 1, 1).unwrap())
    );
    assert_eq!(
        day.checked_add_days(2),
        Some(Date::from_calendar_date(2021, 1, 2).unwrap())
    );
    assert_eq!(
        day.checked_add_days(-366),
        Some(Date::from_calendar_date(2019, 12, 31).unwrap())
    );
    let last = Date::from_julian_day(MAX_JULIAN_DAY).unwrap();
    assert_eq!(last.next_day(), None);
    assert_eq!(last.checked_add_days(1), None);
    assert_eq!(last.checked_add_days(0), Some(last));
    assert_eq!(last.checked_add_days(i64::MAX), None);
    let first = Date::from_julian_day(MIN_JULIAN_DAY).unwrap();
    assert_eq!(first.checked_add_days(-1), None);
    assert_eq!(first.checked_add_days(i64::MIN), None);
    assert_eq!(
        first.checked_add_days(MAX_JULIAN_DAY as i64 - MIN_JULIAN_DAY as i64),
        Some(last)
    );
}

#[test]
fn times_are_those_of_a_clock() {
    assert!(Time::from_hms(23, 59, 59).is_ok());
    assert_eq!(Time::from_hms(24, 0, 0), Err(ComponentRange));
    assert_eq!(Time::from_hms(0, 60, 0), Err(ComponentRange));
    assert_eq!(Time::from_hms(0, 0, 60), Err(ComponentRange));
    assert_eq!(Time::from_hms_nano(0, 0, 0, 1_000_000_000), Err(ComponentRange));
    let t = Time::from_hms_nano(1, 2, 3, 4).unwrap();
    assert_eq!((t.hour(), t.minute(), t.second(), t.nanosecond()), (1, 2, 3, 4));
    assert_eq!(t.to_seconds_of_day(), 3723);
    assert_eq!(Time::from_seconds_of_day(3723, 4), t);
    assert_eq!(Time::midnight(), Time::from_hms(0, 0, 0).unwrap());
    assert_eq!(Time::from_seconds_of_day(86_399, 0), Time::from_hms(23, 59, 59).unwrap());
    for (hour, minute, second) in [(0, 0, 0), (23, 59, 59), (24, 0, 0), (0, 60, 0), (0, 0, 60), (255, 255, 255)] {
        assert_eq!(
            Time::from_hms(hour, minute, second).is_ok(),
            time::Time::from_hms(hour, minute, second).is_ok()
        );
    }
}

#[test]
fn offsets_are_under_twenty_six_hours() {
    assert_eq!(UtcOffset::from_whole_seconds(93_599).unwrap().whole_seconds(), 93_599);
    assert_eq!(UtcOffset::from_whole_seconds(-93_599).unwrap().whole_seconds(), -93_599);
    assert_eq!(UtcOffset::from_whole_seconds(93_600), Err(ComponentRange));
    assert_eq!(UtcOffset::from_whole_seconds(-93_600), Err(ComponentRange));
    assert!(UtcOffset::utc().is_utc());
    assert!(!UtcOffset::from_whole_seconds(1).unwrap().is_utc());
}

#[test]
fn instants_are_counted_as_the_calendar_counts_them() {
    let dates = [
        (-9999, 1, 1),
        (-1, 12, 31),
        (0, 1, 1),
        (1969, 12, 31),
        (1970, 1, 1),
        (2000, 2, 29),
        (2016, 10, 8),
        (2038, 1, 19),
        (9999, 12, 31),
    ];
    let times = [(0, 0, 0), (3, 14, 7), (12, 0, 0), (23, 59, 59)];
    let offsets = [-93_599, -3600, 0, 1, 3600, 19_800, 93_599];
    for (year, month, day) in dates {
        for (hour, minute, second) in times {
            for offset in offsets {
                let ours = PrimitiveDateTime::new(
                    Date::from_calendar_date(year, month, day).unwrap(),
                    Time::from_hms(hour, minute, second).unwrap(),
                )
                .assume_offset(UtcOffset::from_whole_seconds(offset).unwrap());
                let theirs = time::Date::from_calendar_date(year, month_of(month), day)
                    .unwrap()
                    .with_hms(hour, minute, second)
                    .unwrap()
                    .assume_offset(time::UtcOffset::from_whole_seconds(offset).unwrap());
                assert_eq!(ours.unix_timestamp(), theirs.unix_timestamp());
                assert_eq!(ours.year(), theirs.year());
                for target in offsets {
                    let there = ours.checked_to_offset(UtcOffset::from_whole_seconds(target).unwrap());
                    let theirs_there = theirs
                        .checked_to_offset(time::UtcOffset::from_whole_seconds(target).unwrap());
                    assert_eq!(there.is_some(), theirs_there.is_some());
                    if let (Some(a), Some(b)) = (there, theirs_there) {
                        assert_eq!(a.unix_timestamp(), ours.unix_timestamp());
                        assert_eq!(a.offset().whole_seconds(), target);
                        assert_eq!(a.date().to_julian_day(), b.to_julian_day());
                        assert_eq!(
                            (a.time().hour(), a.time().minute(), a.time().second()),
                            (b.hour(), b.minute(), b.second())
                        );
                        assert_eq!(a, ours);
                    }
                }
            }
        }
    }
}

#[test]
fn instants_come_from_their_seconds() {
    let epoch = OffsetDateTime::from_unix_timestamp(0).unwrap();
    assert_eq!(epoch.date(), Date::from_calendar_date(1970, 1, 1).unwrap());
    assert_eq!(epoch.time(), Time::midnight());
    assert_eq!(epoch.unix_timestamp(), 0);
    let before = OffsetDateTime::from_unix_timestamp(-1).unwrap();
    assert_eq!(before.date(), Date::from_calendar_date(1969, 12, 31).unwrap());
    assert_eq!(before.time(), Time::from_hms(23, 59, 59).unwrap());
    let later = OffsetDateTime::from_unix_parts(1_475_946_000, 7).unwrap();
    assert_eq!(later.date(), Date::from_calendar_date(2016, 10, 8).unwrap());
    assert_eq!(later.time(), Time::from_hms_nano(17, 0, 0, 7).unwrap());
    assert_eq!(later.unix_timestamp(), 1_475_946_000);
    assert!(OffsetDateTime::from_unix_timestamp(MAX_LOCAL_SECONDS).is_ok());
    assert!(OffsetDateTime::from_unix_timestamp(MIN_LOCAL_SECONDS).is_ok());
    assert_eq!(
        OffsetDateTime::from_unix_timestamp(MAX_LOCAL_SECONDS + 1).err(),
        Some(ComponentRange)
    );
    assert_eq!(
        OffsetDateTime::from_unix_timestamp(MIN_LOCAL_SECONDS - 1).err(),
        Some(ComponentRange)
    );
    assert_eq!(
        OffsetDateTime::from_unix_parts(0, 1_000_000_000).err(),
        Some(ComponentRange)
    );
    assert_eq!(OffsetDateTime::from_unix_timestamp(i64::MAX).err(), Some(ComponentRange));
    assert_eq!(OffsetDateTime::from_unix_timestamp(i64::MIN).err(), Some(ComponentRange));
}

#[test]
fn instants_are_equal_whatever_their_offsets() {
    let a = OffsetDateTime::from_unix_parts(1_000_000, 5).unwrap();
    let b = a.to_offset(UtcOffset::from_whole_seconds(7200).unwrap());
    assert_eq!(a, b);
    assert_eq!(b.offset().whole_seconds(), 7200);
    assert_ne!(a.time(), b.time());
    assert_ne!(a, OffsetDateTime::from_unix_parts(1_000_000, 6).unwrap());
    assert_ne!(a, OffsetDateTime::from_unix_parts(1_000_001, 5).unwrap());
    assert!(a.precedes(&OffsetDateTime::from_unix_parts(1_000_000, 6).unwrap()));
    assert!(a.precedes(&OffsetDateTime::from_unix_parts(1_000_001, 0).unwrap()));
    assert!(!a.precedes(&b));
    assert!(!OffsetDateTime::from_unix_parts(1_000_001, 0).unwrap().precedes(&a));
}

#[test]
fn readings_move_by_seconds() {
    let a = PrimitiveDateTime::new(
        Date::from_calendar_date(2023, 3, 25).unwrap(),
        Time::from_hms_nano(22, 0, 0, 9).unwrap(),
    )
    .assume_offset(UtcOffset::from_whole_seconds(3600).unwrap());
    let b = a.checked_add_seconds(86_400 + 3600).unwrap();
    assert_eq!(b.date(), Date::from_calendar_date(2023, 3, 26).unwrap());
    assert_eq!(b.time(), Time::from_hms_nano(23, 0, 0, 9).unwrap());
    assert_eq!(b.offset(), a.offset());
    let c = a.checked_add_seconds(-(22 * 3600 + 1)).unwrap();
    assert_eq!(c.date(), Date::from_calendar_date(2023, 3, 24).unwrap());
    assert_eq!(c.time(), Time::from_hms_nano(23, 59, 59, 9).unwrap());
    assert!(a.checked_add_seconds(i64::MAX).is_none());
    assert!(a.checked_add_seconds(i64::MIN).is_none());
    assert!(a.checked_add_seconds(MAX_LOCAL_SECONDS).is_none());
    assert_eq!(a.date_time().to_local_seconds(), 1_679_781_600);
    assert_eq!(
        PrimitiveDateTime::from_local_seconds(1_679_781_600, 9).unwrap(),
        a.date_time()
    );
    assert_eq!(
        a.replace_date(Date::from_calendar_date(2000, 1, 1).unwrap()).date_time(),
        PrimitiveDateTime::new(
            Date::from_calendar_date(2000, 1, 1).unwrap(),
            Time::from_hms_nano(22, 0, 0, 9).unwrap()
        )
    );
    assert_eq!(
        a.replace_time(Time::midnight()).date_time(),
        PrimitiveDateTime::new(Date::from_calendar_date(2023, 3, 25).unwrap(), Time::midnight())
    );
}

#[test]
fn the_calendar_ends_where_the_bounds_say() {
    // More years than these would mean that `time` was built to hold larger
    // dates than the library counts on.
    assert!(time::Date::from_calendar_date(10_000, time::Month::January, 1).is_err());
    assert!(time::Date::from_calendar_date(-10_000, time::Month::December, 31).is_err());
    assert!(time::Date::from_julian_day(MAX_JULIAN_DAY + 1).is_err());
    assert!(time::Date::from_julian_day(MIN_JULIAN_DAY - 1).is_err());
}
