use secure_chat::clock::{fmt_clock, fmt_reading, fmt_ts, now, unix_now, whole_seconds};
use secure_chat::message::{has_hidden_flag, HIDDEN_FLAG};
use std::time::{Duration, SystemTime, UNIX_EPOCH};

#[test]
fn the_epoch_is_midnight() {
    assert_eq!(fmt_ts(0), "00:00:00");
}

#[test]
fn hours_minutes_and_seconds_take_two_digits() {
    assert_eq!(fmt_ts(3661), "01:01:01");
    assert_eq!(fmt_ts(86399), "23:59:59");
    assert_eq!(fmt_clock(45296), "12:34:56");
}

#[test]
fn the_day_does_not_show() {
    assert_eq!(fmt_ts(86400), "00:00:00");
    assert_eq!(fmt_ts(1_700_000_000), "22:13:20");
}

#[test]
fn the_sentinel_bit_does_not_show() {
    assert_eq!(fmt_ts(1_700_000_000 | HIDDEN_FLAG), "22:13:20");
    assert_eq!(fmt_ts(HIDDEN_FLAG), "00:00:00");
    assert_eq!(fmt_ts(u64::MAX), fmt_ts(u64::MAX - HIDDEN_FLAG));
}

#[test]
fn the_plain_clock_counts_the_top_bit() {
    // 2^63 seconds, taken modulo a day, are 55808 seconds.
    assert_eq!(fmt_clock(HIDDEN_FLAG), "15:30:08");
}

#[test]
fn the_flag_is_the_top_bit() {
    assert!(!has_hidden_flag(0));
    assert!(!has_hidden_flag(HIDDEN_FLAG - 1));
    assert!(has_hidden_flag(HIDDEN_FLAG));
    assert!(has_hidden_flag(u64::MAX));
}

#[test]
fn the_clock_is_the_systems() {
    let before = SystemTime::now().duration_since(UNIX_EPOCH).unwrap().as_secs();
    let read = unix_now().unwrap();
    let after = SystemTime::now().duration_since(UNIX_EPOCH).unwrap().as_secs();
    assert!(before <= read && read <= after);
}

#[test]
fn now_is_a_time_of_day() {
    let before = unix_now().unwrap();
    let text = now().unwrap();
    let after = unix_now().unwrap();
    assert!((before..=after).any(|secs| fmt_clock(secs) == text));
}

#[test]
fn a_reading_counts_in_whole_seconds() {
    assert_eq!(whole_seconds(Ok((7, 999_999_999))), Some(7));
    assert_eq!(whole_seconds(Ok((0, 0))), Some(0));
}

#[test]
fn a_clock_before_the_epoch_tells_no_time() {
    let later = UNIX_EPOCH + Duration::from_secs(1);
    let error = UNIX_EPOCH.duration_since(later).unwrap_err();
    assert_eq!(whole_seconds(Err(error)), None);
    assert_eq!(fmt_reading(None), None);
}

#[test]
fn a_reading_is_a_time_of_day() {
    assert_eq!(fmt_reading(Some(3661)), Some("01:01:01".to_string()));
}
