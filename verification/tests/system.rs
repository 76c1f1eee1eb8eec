use time_tz::interface::TimeZone;
use time_tz::system::{
    check_windows_status, timezone_of_key, timezone_of_link, Error, TIME_ZONE_ID_DAYLIGHT,
    TIME_ZONE_ID_INVALID, TIME_ZONE_ID_STANDARD,
};

fn name_of(target: &str) -> Result<String, Error> {
    timezone_of_link(target).map(|zone| zone.name().to_string())
}

#[test]
fn the_link_names_the_zone() {
    assert_eq!(name_of("/usr/share/zoneinfo/Europe/Paris"), Ok("Europe/Paris".to_string()));
    assert_eq!(name_of("../usr/share/zoneinfo/Asia/Tokyo"), Ok("Asia/Tokyo".to_string()));
    assert_eq!(name_of("/var/db/timezone/zoneinfo/CET"), Ok("CET".to_string()));
    assert_eq!(name_of("/var/db/timezone/zoneinfo/UTC"), Ok("UTC".to_string()));
    assert_eq!(
        name_of("/a/zoneinfo/b/zoneinfo/America/New_York"),
        Ok("America/New_York".to_string())
    );
    // Without the directory the whole target is the name.
    assert_eq!(name_of("Europe/London"), Ok("Europe/London".to_string()));
    assert_eq!(name_of("zoneinfo/Europe/London"), Err(Error::Unknown));
    assert_eq!(name_of("/usr/share/zoneinfo/Mars/Olympus"), Err(Error::Unknown));
    assert_eq!(name_of("/usr/share/zoneinfo/"), Err(Error::Unknown));
    assert_eq!(name_of(""), Err(Error::Unknown));
    // The cuts are found from left to right and do not overlap.
    assert_eq!(name_of("/zoneinfo/zoneinfo/UTC"), Err(Error::Unknown));
    assert_eq!(name_of("/zoneinfo//zoneinfo/EET"), Ok("EET".to_string()));
    // A vendor name is a name too.
    assert_eq!(
        name_of("/usr/share/zoneinfo/China Standard Time"),
        Ok("Asia/Shanghai".to_string())
    );
}

#[test]
fn the_link_is_cut_as_a_string_is_split() {
    for target in [
        "",
        "/zoneinfo/",
        "/zoneinfo/zoneinfo/",
        "/zoneinfo//zoneinfo/",
        "x/zoneinfo/UTC",
        "/zoneinfo/UTC/zoneinfo/",
        "/zoneinfo/zoneinfo/zoneinfo/UTC",
        "/zoneinfo",
        "zoneinfo/zoneinfo/UTC",
        "/zoneinfo/\u{e9}/zoneinfo/CET",
    ] {
        let last = target.split("/zoneinfo/").last().unwrap();
        let expected = time_tz::timezones::get_by_name(last)
            .map(|zone| zone.name().to_string())
            .ok_or(Error::Unknown);
        assert_eq!(name_of(target), expected, "{:?}", target);
    }
}

#[test]
fn the_status_is_looked_at_first() {
    assert_eq!(check_windows_status(TIME_ZONE_ID_INVALID), Err(Error::Undetermined));
    assert_eq!(check_windows_status(0), Err(Error::Undetermined));
    assert_eq!(check_windows_status(TIME_ZONE_ID_STANDARD), Ok(()));
    assert_eq!(check_windows_status(TIME_ZONE_ID_DAYLIGHT), Ok(()));
    assert_eq!(check_windows_status(3), Err(Error::Os));
    assert_eq!(check_windows_status(u32::MAX), Err(Error::Os));
}

#[test]
fn the_key_names_the_zone() {
    let name = |key: &str| timezone_of_key(key).map(|zone| zone.name().to_string());
    assert_eq!(name(""), Err(Error::Undetermined));
    assert_eq!(name("W. Europe Standard Time"), Ok("Europe/Berlin".to_string()));
    assert_eq!(name("Tokyo Standard Time"), Ok("Asia/Tokyo".to_string()));
    assert_eq!(name("Europe/Rome"), Ok("Europe/Rome".to_string()));
    assert_eq!(name("No Such Time"), Err(Error::Unknown));
}
