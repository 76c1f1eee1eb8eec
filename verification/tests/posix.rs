use time_tz::datetime::{Date, OffsetDateTime, PrimitiveDateTime, Time};
use time_tz::interface::{Offset, TimeZone, ToTimezone};
use time_tz::posix_tz::expanded::{parse_abstract, TzOrExpanded};
use time_tz::posix_tz::intermediate::{parse_intermediate, ParsedTz};
use time_tz::posix_tz::parser::{
    entry, Date as RuleDate, ErrorKind, Offset as WrittenOffset, Time as WrittenTime,
};
use time_tz::posix_tz::{parse, Error, ParseError, PosixTz, RangeError};
use time_tz::timezones;

fn utc(year: i32, month: u8, day: u8, hour: u8, minute: u8) -> OffsetDateTime {
    PrimitiveDateTime::new(
        Date::from_calendar_date(year, month, day).unwrap(),
        Time::from_hms(hour, minute, 0).unwrap(),
    )
    .assume_utc()
}

fn day(year: i32, month: u8, day: u8) -> Result<Date, Error> {
    Ok(Date::from_calendar_date(year, month, day).unwrap())
}

fn written(hh: u8, mm: Option<u8>, ss: Option<u8>) -> WrittenTime {
    WrittenTime { hh, mm, ss }
}

#[test]
fn written_times_count_in_seconds() {
    assert_eq!(written(1, Some(2), Some(3)).to_seconds(), 3723);
    assert_eq!(written(1, None, None).to_seconds(), 3600);
    assert_eq!(written(0, Some(30), None).to_seconds(), 1800);
    assert_eq!(written(255, Some(255), Some(255)).to_seconds(), 933_555);
    assert_eq!(
        WrittenOffset { positive: true, time: written(5, Some(30), None) }.to_seconds(),
        19_800
    );
    assert_eq!(
        WrittenOffset { positive: false, time: written(5, Some(30), None) }.to_seconds(),
        -19_800
    );
    assert_eq!(
        written(4, Some(5), Some(6)).to_time(),
        Time::from_hms(4, 5, 6).unwrap()
    );
    assert_eq!(written(23, None, None).to_time(), Time::from_hms(23, 0, 0).unwrap());
}

#[test]
fn written_parts_have_their_ranges() {
    assert!(written(24, Some(59), Some(59)).is_valid_range());
    assert!(!written(25, None, None).is_valid_range());
    assert!(!written(0, Some(60), None).is_valid_range());
    assert!(!written(0, None, Some(60)).is_valid_range());
    assert!(RuleDate::J(1).is_valid_range());
    assert!(RuleDate::J(365).is_valid_range());
    assert!(!RuleDate::J(0).is_valid_range());
    assert!(!RuleDate::J(366).is_valid_range());
    assert!(RuleDate::N(0).is_valid_range());
    assert!(RuleDate::N(365).is_valid_range());
    assert!(!RuleDate::N(366).is_valid_range());
    assert!(RuleDate::M { m: 1, n: 1, d: 0 }.is_valid_range());
    assert!(RuleDate::M { m: 12, n: 5, d: 6 }.is_valid_range());
    assert!(!RuleDate::M { m: 0, n: 1, d: 0 }.is_valid_range());
    assert!(!RuleDate::M { m: 13, n: 1, d: 0 }.is_valid_range());
    assert!(!RuleDate::M { m: 1, n: 0, d: 0 }.is_valid_range());
    assert!(!RuleDate::M { m: 1, n: 6, d: 0 }.is_valid_range());
    assert!(!RuleDate::M { m: 1, n: 1, d: 7 }.is_valid_range());
}

#[test]
fn range_errors_come_in_their_order() {
    let check = |s: &str| entry(s).unwrap().ensure_valid_range();
    assert_eq!(check("ABC24:59:59"), Ok(()));
    assert_eq!(check(":ABC"), Ok(()));
    assert_eq!(check("ABC25"), Err(RangeError::Time));
    assert_eq!(check("ABC5:60"), Err(RangeError::Time));
    assert_eq!(check("ABC5:00:60"), Err(RangeError::Time));
    assert_eq!(check("ABC5DEF25"), Err(RangeError::Time));
    assert_eq!(check("ABC5DEF,J0,J1"), Err(RangeError::Date));
    assert_eq!(check("ABC5DEF,J1,J366"), Err(RangeError::Date));
    assert_eq!(check("ABC5DEF,366,1"), Err(RangeError::Date));
    assert_eq!(check("ABC5DEF,M13.1.0,M1.1.0"), Err(RangeError::Date));
    assert_eq!(check("ABC5DEF,M1.0.0,M1.1.0"), Err(RangeError::Date));
    assert_eq!(check("ABC5DEF,M1.6.0,M1.1.0"), Err(RangeError::Date));
    assert_eq!(check("ABC5DEF,M1.1.7,M1.1.0"), Err(RangeError::Date));
    assert_eq!(check("ABC5DEF,J1/25,J2"), Err(RangeError::Time));
    assert_eq!(check("ABC5DEF,J1,J2/0:60"), Err(RangeError::Time));
    // An offset out of range is told before a day, a day before a time of the rule.
    assert_eq!(check("ABC25DEF,J0,J1"), Err(RangeError::Time));
    assert_eq!(check("ABC5DEF25,J0,J1"), Err(RangeError::Time));
    assert_eq!(check("ABC5DEF,J0/25,J1"), Err(RangeError::Date));
    assert_eq!(check("ABC5DEF,J1/24,J2/24"), Ok(()));
}

#[test]
fn days_of_a_rule_fall_where_they_should() {
    // The second Wednesday of January.
    assert_eq!(RuleDate::M { m: 1, n: 2, d: 3 }.to_date(2021), day(2021, 1, 13));
    assert_eq!(RuleDate::M { m: 3, n: 2, d: 0 }.to_date(2021), day(2021, 3, 14));
    assert_eq!(RuleDate::M { m: 11, n: 1, d: 0 }.to_date(2021), day(2021, 11, 7));
    // The first of the month is itself the first of its weekday.
    assert_eq!(RuleDate::M { m: 1, n: 1, d: 5 }.to_date(2021), day(2021, 1, 1));
    assert_eq!(RuleDate::M { m: 1, n: 1, d: 4 }.to_date(2021), day(2021, 1, 7));
    // Week five is the last week that the month has.
    assert_eq!(RuleDate::M { m: 3, n: 5, d: 0 }.to_date(2021), day(2021, 3, 28));
    assert_eq!(RuleDate::M { m: 10, n: 5, d: 0 }.to_date(2021), day(2021, 10, 31));
    assert_eq!(RuleDate::M { m: 2, n: 5, d: 1 }.to_date(2021), day(2021, 2, 22));
    assert_eq!(RuleDate::M { m: 5, n: 5, d: 1 }.to_date(2021), day(2021, 5, 31));
    assert_eq!(RuleDate::M { m: 2, n: 5, d: 6 }.to_date(2020), day(2020, 2, 29));
    assert_eq!(RuleDate::M { m: 12, n: 5, d: 5 }.to_date(2021), day(2021, 12, 31));
    assert_eq!(RuleDate::M { m: 12, n: 4, d: 5 }.to_date(2021), day(2021, 12, 24));
    // Days counted from one never count the 29th of February.
    assert_eq!(RuleDate::J(1).to_date(2020), day(2020, 1, 1));
    assert_eq!(RuleDate::J(59).to_date(2020), day(2020, 2, 28));
    assert_eq!(RuleDate::J(60).to_date(2020), day(2020, 3, 1));
    assert_eq!(RuleDate::J(60).to_date(2021), day(2021, 3, 1));
    assert_eq!(RuleDate::J(365).to_date(2020), day(2020, 12, 31));
    assert_eq!(RuleDate::J(365).to_date(2021), day(2021, 12, 31));
    // Days counted from zero count it.
    assert_eq!(RuleDate::N(0).to_date(2021), day(2021, 1, 1));
    assert_eq!(RuleDate::N(56).to_date(2021), day(2021, 2, 26));
    assert_eq!(RuleDate::N(59).to_date(2020), day(2020, 2, 29));
    assert_eq!(RuleDate::N(59).to_date(2021), day(2021, 3, 1));
    assert_eq!(RuleDate::N(365).to_date(2020), day(2020, 12, 31));
    assert_eq!(RuleDate::N(364).to_date(2021), day(2021, 12, 31));
}

#[test]
fn days_of_a_rule_can_be_missing() {
    assert_eq!(RuleDate::N(365).to_date(2021), Err(Error::ComponentRange));
    assert_eq!(RuleDate::N(0).to_date(10_000), Err(Error::ComponentRange));
    assert_eq!(RuleDate::J(1).to_date(-10_000), Err(Error::ComponentRange));
    assert_eq!(
        RuleDate::M { m: 1, n: 1, d: 0 }.to_date(10_000),
        Err(Error::ComponentRange)
    );
    // The fifth week of the last December leaves the calendar where the
    // first week's day lies after the third of the month.
    let fifth = Date::from_calendar_date(9999, 12, 5).unwrap();
    let d = fifth.weekday().number_days_from_sunday();
    assert_eq!(
        RuleDate::M { m: 12, n: 5, d }.to_date(9999),
        Err(Error::DateTooLarge)
    );
    assert_eq!(
        RuleDate::M { m: 12, n: 4, d }.to_date(9999),
        day(9999, 12, 26)
    );
    let third = Date::from_calendar_date(9999, 12, 3).unwrap();
    let d = third.weekday().number_days_from_sunday();
    assert_eq!(RuleDate::M { m: 12, n: 5, d }.to_date(9999), day(9999, 12, 31));
}

#[test]
fn strings_give_their_errors() {
    let error = |s: &'static str| PosixTz::parse(s).err();
    assert_eq!(error(""), Some(ParseError::Syntax(ErrorKind::Name)));
    assert_eq!(error("AB1"), Some(ParseError::Syntax(ErrorKind::Name)));
    assert_eq!(error("ABC"), Some(ParseError::Syntax(ErrorKind::Digit)));
    assert_eq!(error("ABC256"), Some(ParseError::Syntax(ErrorKind::Number)));
    assert_eq!(error("ABC5,"), Some(ParseError::Syntax(ErrorKind::Eof)));
    assert_eq!(error(":China Standard Time"), Some(ParseError::Syntax(ErrorKind::Eof)));
    assert_eq!(error("ABC25"), Some(ParseError::Range(RangeError::Time)));
    assert_eq!(error("ABC5DEF,J0,J1"), Some(ParseError::Range(RangeError::Date)));
    assert_eq!(error(":Nowhere"), Some(ParseError::UnknownName("Nowhere")));
    assert_eq!(error("ABC5DEF,J1/24,J2"), Some(ParseError::ComponentRange));
    assert_eq!(error("ABC5DEF,J1,J2/24:00:00"), Some(ParseError::ComponentRange));
    assert_eq!(error("ABC5DEF,J1/23:59:59,J2"), None);
    assert_eq!(error("ABC24:59:59DEF24:59:59"), None);
    assert_eq!(parse("ABC25").err(), Some(ParseError::Range(RangeError::Time)));
    assert!(parse("ABC5").is_ok());
}

#[test]
fn short_names_are_looked_up() {
    let zone = PosixTz::parse(":Europe").unwrap();
    assert_eq!(zone.as_iana().map(|z| z.name()), Some("Europe/Amsterdam"));
    let zone = PosixTz::parse(":London").unwrap();
    assert_eq!(zone.as_iana(), Some(&timezones::db::europe::london()));
    let zone = PosixTz::parse(":<China Standard Time>").unwrap();
    assert_eq!(zone.as_iana().map(|z| z.name()), Some("Asia/Shanghai"));
    let zone = PosixTz::parse(":<Asia/Tokyo>").unwrap();
    let offset = zone.get_offset(&utc(2021, 1, 1, 0, 0)).unwrap();
    assert_eq!(offset.to_utc().whole_seconds(), 32_400);
    assert_eq!(offset.name(), "JST");
    assert!(!offset.is_dst());
    assert!(PosixTz::parse("ABC5").unwrap().as_iana().is_none());
    match parse_intermediate(":Tokyo") {
        Ok(ParsedTz::Existing(z)) => assert_eq!(z.name(), "Asia/Tokyo"),
        other => panic!("{:?}", other),
    }
    match parse_abstract(parse_intermediate(":Tokyo").unwrap()) {
        Ok(TzOrExpanded::Tz(z)) => assert_eq!(z.name(), "Asia/Tokyo"),
        other => panic!("{:?}", other),
    }
}

#[test]
fn the_example_string_means_what_it_says() {
    let zone = PosixTz::parse("ABC+1:00DEF,M1.2.3/4,56").unwrap();
    // Standard time lies an hour west of Greenwich; daylight saving time,
    // with no offset of its own, an hour further.
    let winter = zone.get_offset(&utc(2021, 1, 1, 0, 0)).unwrap();
    assert_eq!((winter.name(), winter.to_utc().whole_seconds(), winter.is_dst()), ("ABC", -3600, false));
    // It begins on the second Wednesday of January at four, read in standard
    // time: 2021-01-13 05:00 UTC.
    let before = zone.get_offset(&utc(2021, 1, 13, 4, 59)).unwrap();
    assert_eq!((before.name(), before.is_dst()), ("ABC", false));
    let begun = zone.get_offset(&utc(2021, 1, 13, 5, 0)).unwrap();
    assert_eq!((begun.name(), begun.to_utc().whole_seconds(), begun.is_dst()), ("DEF", -7200, true));
    // It ends on day 56, counted from zero, at two, read in daylight saving
    // time: 2021-02-26 04:00 UTC.
    let last = zone.get_offset(&utc(2021, 2, 26, 3, 59)).unwrap();
    assert_eq!((last.name(), last.is_dst()), ("DEF", true));
    let over = zone.get_offset(&utc(2021, 2, 26, 4, 0)).unwrap();
    assert_eq!((over.name(), over.to_utc().whole_seconds(), over.is_dst()), ("ABC", -3600, false));
}

#[test]
fn a_rule_follows_the_zone_it_describes() {
    let new_york = timezones::db::america::new_york();
    let berlin = timezones::db::europe::berlin();
    let eastern = PosixTz::parse("EST5EDT4,M3.2.0,M11.1.0").unwrap();
    let central = PosixTz::parse("CET-1CEST-2,M3.5.0,M10.5.0/3").unwrap();
    let start = utc(2021, 1, 1, 0, 0).unix_timestamp();
    let end = utc(2021, 12, 31, 23, 0).unix_timestamp();
    let mut instant = start;
    while instant <= end {
        let at = OffsetDateTime::from_unix_timestamp(instant).unwrap();
        for (rule, zone) in [(&eastern, &new_york), (&central, &berlin)] {
            let by_rule = rule.get_offset(&at).unwrap();
            let by_table = zone.get_offset_utc(&at);
            assert_eq!(by_rule.to_utc(), by_table.to_utc(), "{}", instant);
            assert_eq!(by_rule.is_dst(), by_table.is_dst(), "{}", instant);
            assert_eq!(by_rule.name(), by_table.name(), "{}", instant);
        }
        instant += 1800;
    }
}

#[test]
fn a_rule_that_ends_before_it_begins_never_holds() {
    let southern = PosixTz::parse("AEST-10AEDT-11,M10.1.0,M4.1.0/3").unwrap();
    for month in 1..=12 {
        let offset = southern.get_offset(&utc(2021, month, 15, 0, 0)).unwrap();
        assert_eq!((offset.name(), offset.is_dst()), ("AEST", false));
    }
}

#[test]
fn without_a_rule_the_reference_zone_decides() {
    let zone = PosixTz::parse("EST5EDT").unwrap();
    let summer = zone.get_offset(&utc(2021, 7, 1, 0, 0)).unwrap();
    assert_eq!((summer.name(), summer.to_utc().whole_seconds(), summer.is_dst()), ("EDT", -21_600, true));
    let winter = zone.get_offset(&utc(2021, 1, 1, 0, 0)).unwrap();
    assert_eq!((winter.name(), winter.to_utc().whole_seconds(), winter.is_dst()), ("EST", -18_000, false));
    let zone = PosixTz::parse("EST5EDT").unwrap().with_reference(timezones::db::australia::sydney());
    assert!(!zone.get_offset(&utc(2021, 7, 1, 0, 0)).unwrap().is_dst());
    assert!(zone.get_offset(&utc(2021, 1, 1, 0, 0)).unwrap().is_dst());
    let plain = PosixTz::parse("EST5").unwrap();
    let offset = plain.get_offset(&utc(2021, 7, 1, 0, 0)).unwrap();
    assert_eq!((offset.name(), offset.to_utc().whole_seconds(), offset.is_dst()), ("EST", -18_000, false));
    let quoted = PosixTz::parse("<+0330>-3:30").unwrap();
    let offset = quoted.get_offset(&utc(2021, 7, 1, 0, 0)).unwrap();
    assert_eq!((offset.name(), offset.to_utc().whole_seconds()), ("+0330", 12_600));
}

#[test]
fn a_missing_day_is_an_error_of_the_year() {
    let zone = PosixTz::parse("ABC5DEF,0,365").unwrap();
    assert!(zone.get_offset(&utc(2020, 6, 1, 0, 0)).unwrap().is_dst());
    assert_eq!(zone.get_offset(&utc(2021, 6, 1, 0, 0)).err(), Some(Error::ComponentRange));
    assert_eq!(zone.convert(&utc(2021, 6, 1, 0, 0)).err(), Some(Error::ComponentRange));
    let zone = PosixTz::parse("ABC5DEF,365,0").unwrap();
    assert_eq!(zone.get_offset(&utc(2021, 6, 1, 0, 0)).err(), Some(Error::ComponentRange));
    let fifth = Date::from_calendar_date(9999, 12, 5).unwrap();
    let d = fifth.weekday().number_days_from_sunday();
    let rule = format!("ABC5DEF,J1,M12.5.{}", d);
    let zone = PosixTz::parse(&rule).unwrap();
    assert_eq!(zone.get_offset(&utc(9999, 6, 1, 0, 0)).err(), Some(Error::DateTooLarge));
    assert!(zone.get_offset(&utc(2021, 6, 1, 0, 0)).unwrap().is_dst());
}

#[test]
fn instants_are_converted_to_the_zone() {
    let zone = PosixTz::parse("CET-1CEST-2,M3.5.0,M10.5.0/3").unwrap();
    let noon = utc(2021, 7, 1, 12, 0);
    let there = zone.convert(&noon).unwrap();
    assert_eq!(there, noon);
    assert_eq!(there.offset().whole_seconds(), 7200);
    assert_eq!(there.time(), Time::from_hms(14, 0, 0).unwrap());
    assert_eq!(noon.to_timezone(&zone), Ok(there));
    assert_eq!(noon.checked_to_timezone(&zone), Ok(there));
    let east = PosixTz::parse("ABC-10").unwrap();
    let last = OffsetDateTime::from_unix_timestamp(253_402_300_799).unwrap();
    assert_eq!(east.convert(&last), Err(Error::ComponentRange));
    assert_eq!(east.convert_clock(1_625_140_800, 5).unwrap().unix_timestamp(), 1_625_140_800);
    assert_eq!(east.convert_clock(1_625_140_800, 5).unwrap().time(), Time::from_hms_nano(22, 0, 0, 5).unwrap());
    assert_eq!(east.convert_clock(i64::MAX, 0), Err(Error::ComponentRange));
    assert_eq!(east.convert_clock(0, 1_000_000_000), Err(Error::ComponentRange));
}

#[test]
fn the_clock_is_read() {
    let zone = PosixTz::parse("ABC-1").unwrap();
    let before = time::OffsetDateTime::now_utc().unix_timestamp();
    let now = zone.now().unwrap();
    let after = time::OffsetDateTime::now_utc().unix_timestamp();
    assert!(before <= now.unix_timestamp() && now.unix_timestamp() <= after);
    assert_eq!(now.offset().whole_seconds(), 3600);
}

#[test]
fn parts_out_of_range_are_refused_again() {
    use_parts("ABC25", Some(ParseError::Range(RangeError::Time)));
    use_parts("ABC5DEF,J0,J1", Some(ParseError::Range(RangeError::Date)));
    use_parts("ABC5DEF,J1/24,J2", Some(ParseError::ComponentRange));
    use_parts("ABC5DEF,J1/23,J2", None);
}

fn use_parts(written: &'static str, expected: Option<ParseError<'static>>) {
    match entry(written).unwrap() {
        time_tz::posix_tz::parser::Tz::Expanded { std, dst } => {
            assert_eq!(parse_abstract(ParsedTz::Expanded((std, dst))).err(), expected);
        }
        other => panic!("{:?}", other),
    }
}
