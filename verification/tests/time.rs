use chrono::TimeZone;
use outcomes_lookup::time::{Day, Timestamp, ZonedTime};

#[test]
fn day_zero_starts_at_second_zero() {
    assert_eq!(Day { days: 0 }.start(), Timestamp { secs: 0, nanos: 0 });
    assert_eq!(Day { days: 0 }.end(), Timestamp { secs: 86_400, nanos: 0 });
}

#[test]
fn first_day_of_2024_has_exact_bounds() {
    let day = Day { days: 19_723 };
    assert_eq!(day.start(), Timestamp { secs: 1_704_067_200, nanos: 0 });
    assert_eq!(day.end(), Timestamp { secs: 1_704_153_600, nanos: 0 });
}

#[test]
fn day_number_agrees_with_the_calendar() {
    let date = chrono::NaiveDate::from_ymd_opt(2024, 1, 1).unwrap();
    let epoch = chrono::NaiveDate::from_ymd_opt(1970, 1, 1).unwrap();
    let days = (date - epoch).num_days();
    assert_eq!(days, 19_723);
    let start = date.and_hms_opt(0, 0, 0).unwrap().and_utc().timestamp();
    let end = date.succ_opt().unwrap().and_hms_opt(0, 0, 0).unwrap().and_utc().timestamp();
    let day = Day { days: 19_723 };
    assert_eq!(day.start().secs, start);
    assert_eq!(day.end().secs, end);
}

#[test]
fn days_before_1970_have_negative_bounds() {
    let day = Day { days: -1 };
    assert_eq!(day.start(), Timestamp { secs: -86_400, nanos: 0 });
    assert_eq!(day.end(), Timestamp { secs: 0, nanos: 0 });
}

#[test]
fn extreme_days_do_not_overflow() {
    assert_eq!(Day { days: i32::MAX }.start().secs, 2_147_483_647i64 * 86_400);
    assert_eq!(Day { days: i32::MAX }.end().secs, 2_147_483_648i64 * 86_400);
    assert_eq!(Day { days: i32::MIN }.start().secs, -2_147_483_648i64 * 86_400);
    assert_eq!(Day { days: i32::MIN }.end().secs, -2_147_483_647i64 * 86_400);
}

#[test]
fn instant_is_written_under_a_pattern() {
    let instant = Timestamp { secs: 1_704_067_200, nanos: 0 };
    assert_eq!(instant.format("%Y-%m-%d %H:%M:%S"), Some(String::from("2024-01-01 00:00:00")));
    assert_eq!(instant.format("%d/%m/%Y"), Some(String::from("01/01/2024")));
    let instant = Timestamp { secs: 1_431_648_000 + 3_723, nanos: 999_999_999 };
    assert_eq!(instant.format("%Y-%m-%d %H:%M:%S"), Some(String::from("2015-05-15 01:02:03")));
}

#[test]
fn leap_second_is_written_as_second_sixty() {
    let instant = Timestamp { secs: 1_483_228_799, nanos: 1_500_000_000 };
    assert_eq!(instant.format("%Y-%m-%d %H:%M:%S"), Some(String::from("2016-12-31 23:59:60")));
}

#[test]
fn instant_without_a_date_is_not_written() {
    assert_eq!(Timestamp { secs: i64::MAX, nanos: 0 }.format("%Y-%m-%d %H:%M:%S"), None);
    assert_eq!(Timestamp { secs: i64::MIN, nanos: 0 }.format("%Y-%m-%d %H:%M:%S"), None);
    assert_eq!(Timestamp { secs: 0, nanos: 2_000_000_000 }.format("%Y-%m-%d %H:%M:%S"), None);
    assert_eq!(Timestamp { secs: 0, nanos: 1_000_000_000 }.format("%Y-%m-%d %H:%M:%S"), None);
}

#[test]
fn refused_pattern_gives_no_text() {
    assert_eq!(Timestamp { secs: 0, nanos: 0 }.format("%"), None);
    assert_eq!(Timestamp { secs: 0, nanos: 0 }.format(""), Some(String::new()));
}

#[test]
fn zoned_instant_shows_local_time_and_zone() {
    let utc = ZonedTime { at: Timestamp { secs: 1_704_067_200, nanos: 0 }, zone: String::from("UTC") };
    assert_eq!(utc.to_text(), Some(String::from("2024-01-01 00:00:00 UTC")));
    let vienna = ZonedTime {
        at: Timestamp { secs: 1_704_067_200, nanos: 0 },
        zone: String::from("Europe/Vienna"),
    };
    assert_eq!(vienna.to_text(), Some(String::from("2024-01-01 01:00:00 CET")));
    let summer = ZonedTime {
        at: Timestamp { secs: 1_719_792_000, nanos: 0 },
        zone: String::from("Europe/Vienna"),
    };
    assert_eq!(summer.to_text(), Some(String::from("2024-07-01 02:00:00 CEST")));
}

#[test]
fn zoned_instant_agrees_with_the_zone_database() {
    let moment = chrono_tz::America::New_York.timestamp_opt(1_704_067_200, 0).unwrap();
    let zoned = ZonedTime {
        at: Timestamp { secs: moment.timestamp(), nanos: moment.timestamp_subsec_nanos() },
        zone: String::from(chrono_tz::America::New_York.name()),
    };
    assert_eq!(zoned.to_text(), Some(moment.to_string()));
    assert_eq!(zoned.to_text(), Some(String::from("2023-12-31 19:00:00 EST")));
}

#[test]
fn unknown_zone_or_instant_gives_no_text() {
    let nowhere = ZonedTime { at: Timestamp { secs: 0, nanos: 0 }, zone: String::from("Mars/Olympus") };
    assert_eq!(nowhere.to_text(), None);
    let never = ZonedTime { at: Timestamp { secs: i64::MAX, nanos: 0 }, zone: String::from("UTC") };
    assert_eq!(never.to_text(), None);
    let unnamed = ZonedTime { at: Timestamp { secs: 0, nanos: 0 }, zone: String::new() };
    assert_eq!(unnamed.to_text(), None);
}
