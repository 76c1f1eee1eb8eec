use time_tz::interface::{Offset, TimeZone};
use time_tz::timezones;
use time_tz::timezones::index::{
    vendor_name, vendor_zone_list, zone, zone_name, VENDOR_COUNT, ZONE_COUNT,
};

fn found(name: &str) -> Vec<String> {
    timezones::find_by_name(name)
        .iter()
        .map(|zone| zone.name().to_string())
        .collect()
}

#[test]
fn every_zone_is_listed_once() {
    let all = timezones::iter();
    assert_eq!(all.len(), ZONE_COUNT);
    for (i, tz) in all.iter().enumerate() {
        assert_eq!(tz.name(), zone_name(i));
        assert_eq!(&zone(i), tz);
        assert_eq!(tz.timespans().name(), zone_name(i));
        if i > 0 {
            assert!(zone_name(i - 1) < zone_name(i));
        }
        assert_eq!(timezones::get_by_name(zone_name(i)).as_ref(), Some(tz));
    }
}

#[test]
fn every_vendor_name_has_its_zones() {
    for v in 0..VENDOR_COUNT {
        let list = vendor_zone_list(v);
        assert!(!list.is_empty());
        if v > 0 {
            assert!(vendor_name(v - 1) < vendor_name(v));
        }
        let names: Vec<String> = list.iter().map(|&i| zone_name(i).to_string()).collect();
        assert_eq!(found(vendor_name(v)), names);
        let taken = if (0..ZONE_COUNT).any(|i| zone_name(i) == vendor_name(v)) {
            vendor_name(v).to_string()
        } else {
            names[0].clone()
        };
        assert_eq!(
            timezones::get_by_name(vendor_name(v)).map(|z| z.name().to_string()),
            Some(taken)
        );
    }
}

#[test]
fn names_are_looked_up_exactly() {
    assert_eq!(timezones::get_by_name("Europe/London").map(|z| z.name().to_string()), Some("Europe/London".to_string()));
    // A name that is a zone's and a vendor's is taken as the zone's.
    assert_eq!(timezones::get_by_name("UTC").map(|z| z.name().to_string()), Some("UTC".to_string()));
    assert_eq!(timezones::get_by_name("Etc/UTC").map(|z| z.name().to_string()), Some("Etc/UTC".to_string()));
    assert_eq!(timezones::get_by_name("CET").map(|z| z.name().to_string()), Some("CET".to_string()));
    assert!(timezones::get_by_name("Europe/Londo").is_none());
    assert!(timezones::get_by_name("europe/london").is_none());
    assert!(timezones::get_by_name("Europe/London ").is_none());
    assert!(timezones::get_by_name("Europe").is_none());
    assert!(timezones::get_by_name("").is_none());
    assert!(timezones::get_by_name("china standard time").is_none());
}

#[test]
fn parts_of_names_find_their_zones() {
    assert_eq!(found("Kolkata"), ["Asia/Kolkata"]);
    assert_eq!(found("Pacific/A"), ["Pacific/Apia", "Pacific/Auckland"]);
    assert_eq!(found("Sao_"), ["Africa/Sao_Tome", "America/Sao_Paulo"]);
    assert_eq!(found("Australia/Sydney"), ["Australia/Sydney"]);
    assert_eq!(found("asia"), Vec::<String>::new());
    assert_eq!(found("Europe/London/"), Vec::<String>::new());
    assert_eq!(found("").len(), ZONE_COUNT);
    assert_eq!(found("China Standard Time"), ["Asia/Shanghai"]);
    assert_eq!(found("China Standard"), Vec::<String>::new());
    // A search takes a name that is a vendor's as the vendor's.
    assert_eq!(found("UTC"), ["Etc/UTC"]);
    assert_eq!(found("UT"), ["Etc/UTC", "UTC"]);
    let asia = found("Asia");
    assert_eq!(asia.len(), 99);
    assert!(asia.iter().all(|name| name.starts_with("Asia/")));
}

#[test]
fn zones_have_their_offsets() {
    let at = |s| time_tz::datetime::OffsetDateTime::from_unix_timestamp(s).unwrap();
    // 2021-01-15 and 2021-07-15, at noon UTC.
    let winter = at(1_610_712_000);
    let summer = at(1_626_350_400);
    for (name, in_winter, in_summer, winter_name, summer_name) in [
        ("UTC", 0, 0, "UTC", "UTC"),
        ("Europe/London", 0, 3600, "GMT", "BST"),
        ("Europe/Berlin", 3600, 7200, "CET", "CEST"),
        ("Europe/Moscow", 10_800, 10_800, "MSK", "MSK"),
        ("America/New_York", -18_000, -14_400, "EST", "EDT"),
        ("America/Los_Angeles", -28_800, -25_200, "PST", "PDT"),
        ("America/Phoenix", -25_200, -25_200, "MST", "MST"),
        ("Asia/Kolkata", 19_800, 19_800, "IST", "IST"),
        ("Asia/Tokyo", 32_400, 32_400, "JST", "JST"),
        ("Asia/Shanghai", 28_800, 28_800, "CST", "CST"),
        ("Australia/Sydney", 39_600, 36_000, "AEDT", "AEST"),
        ("Pacific/Auckland", 46_800, 43_200, "NZDT", "NZST"),
        ("Africa/Johannesburg", 7200, 7200, "SAST", "SAST"),
    ] {
        let tz = timezones::get_by_name(name).unwrap();
        let a = tz.get_offset_utc(&winter);
        let b = tz.get_offset_utc(&summer);
        assert_eq!((a.to_utc().whole_seconds(), a.name()), (in_winter, winter_name), "{}", name);
        assert_eq!((b.to_utc().whole_seconds(), b.name()), (in_summer, summer_name), "{}", name);
        assert_eq!(a.is_dst(), in_winter > in_summer, "{}", name);
        assert_eq!(b.is_dst(), in_summer > in_winter, "{}", name);
    }
    let london = timezones::db::europe::london();
    let first = london.get_offset_primary();
    assert_eq!((first.name(), first.to_utc().whole_seconds(), first.is_dst()), ("LMT", -75, false));
}
