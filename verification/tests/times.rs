use chrono::{DateTime, Local, Utc};

use opencode_limits::clock::{
    format_last_sync, format_last_sync_at, to_iso, FIRST_SECOND, LAST_SECOND, YEAR_0, YEAR_9999,
};
use opencode_limits::schedule::{poll_interval_secs, refresh_due};
use opencode_limits::text::{joined, push_decimal};
use opencode_limits::time_left::{format_time_left, format_time_left_at};

fn decimal(n: u64) -> String {
    let mut text = String::new();
    push_decimal(&mut text, n);
    text
}

#[test]
fn numbers_are_decimal() {
    for n in [0, 7, 9, 10, 42, 100, 1_234_567_890, u64::MAX] {
        assert_eq!(decimal(n), n.to_string());
    }
}

#[test]
fn numbers_are_appended() {
    let mut text = joined("a", "b");
    push_decimal(&mut text, 10);
    assert_eq!(text, "ab10");
}

#[test]
fn time_left_in_units() {
    assert_eq!(format_time_left_at(Some(1_000 + 90_000), 1_000), "1d 1h");
    assert_eq!(format_time_left_at(Some(7 * 86_400), 0), "7d 0h");
    assert_eq!(format_time_left_at(Some(86_399), 0), "23h 59m");
    assert_eq!(format_time_left_at(Some(3_600), 0), "1h 0m");
    assert_eq!(format_time_left_at(Some(3_599), 0), "59m");
    assert_eq!(format_time_left_at(Some(59), 0), "0m");
}

#[test]
fn no_time_left_is_now() {
    assert_eq!(format_time_left_at(Some(5), 5), "now");
    assert_eq!(format_time_left_at(Some(4), 5), "now");
    assert_eq!(format_time_left_at(Some(i64::MIN), i64::MAX), "now");
}

#[test]
fn unknown_end_is_unknown() {
    assert_eq!(format_time_left_at(None, 5), "unknown");
    assert_eq!(format_time_left(None), "unknown");
}

#[test]
fn far_away_end_saturates() {
    assert_eq!(format_time_left_at(Some(i64::MAX), -1), "106751991167300d 15h");
    assert_eq!(format_time_left_at(Some(i64::MAX), 0), "106751991167300d 15h");
}

#[test]
fn countdown_is_tight() {
    for secs in 1..200_000i64 {
        let text = format_time_left_at(Some(secs), 0);
        let expected = if secs >= 86_400 {
            format!("{}d {}h", secs / 86_400, secs % 86_400 / 3_600)
        } else if secs >= 3_600 {
            format!("{}h {}m", secs / 3_600, secs % 3_600 / 60)
        } else {
            format!("{}m", secs / 60)
        };
        assert_eq!(text, expected);
    }
}

#[test]
fn time_left_goes_by_the_clock() {
    assert_eq!(format_time_left(Some(0)), "now");
    let soon = Utc::now().timestamp() + 2 * 86_400 + 5 * 3_600 + 1_800;
    assert_eq!(format_time_left(Some(soon)), "2d 5h");
}

#[test]
fn iso_text_of_a_second() {
    assert_eq!(to_iso(0), Some("1970-01-01T00:00:00+00:00".to_string()));
    assert_eq!(to_iso(1_700_000_000), Some("2023-11-14T22:13:20+00:00".to_string()));
}

#[test]
fn iso_text_ends_with_the_calendar() {
    assert!(to_iso(FIRST_SECOND).is_some());
    assert!(to_iso(FIRST_SECOND - 1).is_none());
    assert!(to_iso(LAST_SECOND).is_some());
    assert!(to_iso(LAST_SECOND + 1).is_none());
    assert!(to_iso(i64::MIN).is_none());
    assert!(to_iso(i64::MAX).is_none());
}

#[test]
fn iso_text_reads_back() {
    for secs in [YEAR_0, -1, 0, 1_700_000_000, YEAR_9999] {
        let text = to_iso(secs).unwrap();
        assert_eq!(DateTime::parse_from_rfc3339(&text).unwrap().timestamp(), secs);
    }
    assert!(DateTime::parse_from_rfc3339(&to_iso(YEAR_0 - 1).unwrap()).is_err());
    assert!(DateTime::parse_from_rfc3339(&to_iso(YEAR_9999 + 1).unwrap()).is_err());
}

#[test]
fn iso_text_is_whole_and_in_utc() {
    for secs in [FIRST_SECOND, YEAR_0, -1, 0, 1_700_000_000, YEAR_9999, LAST_SECOND] {
        let text = to_iso(secs).unwrap();
        assert!(text.ends_with("+00:00"));
        assert!(!text.contains('.'));
    }
}

#[test]
fn last_sync_in_a_given_zone() {
    assert_eq!(format_last_sync_at("2024-01-02T16:04:05+01:00", 0), "3:04:05 PM");
    assert_eq!(format_last_sync_at("2024-01-02T16:04:05+01:00", 3_600), "4:04:05 PM");
    assert_eq!(format_last_sync_at("2024-01-02T16:04:05+01:00", -11_045), "12:00:00 PM");
    assert_eq!(format_last_sync_at("2024-01-02T00:00:09Z", 0), "12:00:09 AM");
    assert_eq!(format_last_sync_at("2024-01-02T00:00:09Z", 86_399), "12:00:08 AM");
    assert_eq!(format_last_sync_at("2024-01-02T00:00:09Z", -86_399), "12:00:10 AM");
    assert_eq!(format_last_sync_at("2016-12-31T23:59:60.5Z", 0), "11:59:60 PM");
    assert_eq!(format_last_sync_at("not a date", 0), "not a date");
}

#[test]
fn last_sync_is_local_time_of_day() {
    for iso in ["2024-05-06T07:08:09+00:00", "2024-05-06T19:08:09.123456789Z", "2016-12-31T23:59:60Z"] {
        let local = DateTime::parse_from_rfc3339(iso).unwrap().with_timezone(&Local);
        let text = format_last_sync(iso);
        assert_eq!(text, local.format("%-I:%M:%S %p").to_string());
        assert_eq!(text, format_last_sync_at(iso, local.offset().local_minus_utc()));
        assert!(text.ends_with(" AM") || text.ends_with(" PM"));
    }
}

#[test]
fn other_last_sync_is_shown_as_it_is() {
    assert_eq!(format_last_sync("yesterday"), "yesterday");
    assert_eq!(format_last_sync(""), "");
}

#[test]
fn interval_doubles_with_failures() {
    let active: Vec<u64> = (0..7).map(|n| poll_interval_secs(false, n)).collect();
    assert_eq!(active, vec![30, 60, 120, 240, 480, 480, 480]);
    let idle: Vec<u64> = (0..6).map(|n| poll_interval_secs(true, n)).collect();
    assert_eq!(idle, vec![300, 600, 1200, 2400, 4800, 4800]);
    assert_eq!(poll_interval_secs(true, u32::MAX), 4800);
}

#[test]
fn fetch_is_due_after_the_interval() {
    let sec = 1_000_000_000u128;
    assert!(refresh_due(true, 0, Some(30 * sec), 0));
    assert!(!refresh_due(true, 0, Some(30 * sec - 1), 0));
    assert!(!refresh_due(true, 20 * sec, Some(30 * sec), 0));
    assert!(refresh_due(true, 20 * sec, Some(300 * sec), 0));
    assert!(refresh_due(true, 20 * sec - 1, Some(30 * sec), 0));
    assert!(!refresh_due(true, 0, Some(30 * sec), 1));
    assert!(refresh_due(true, 0, Some(60 * sec), 1));
}

#[test]
fn first_fetch_is_due_at_once() {
    assert!(refresh_due(true, 0, None, 0));
    assert!(refresh_due(true, u128::MAX, None, u32::MAX));
}

#[test]
fn without_token_nothing_is_due() {
    assert!(!refresh_due(false, 0, None, 0));
    assert!(!refresh_due(false, 0, Some(u128::MAX), 0));
}
