use file_browser::civil::{CivilDate, LocalTime};
use file_browser::clock::{describe_modified, modified_label, Timestamp};
use file_browser::size_text::format_file_size;

fn date(year: i32, month: u32, day: u32) -> CivilDate {
    CivilDate { year, month, day }
}

fn at(d: CivilDate, hour: u32, minute: u32) -> LocalTime {
    LocalTime { date: d, hour, minute }
}

#[test]
fn size_in_bytes_below_one_kib() {
    assert_eq!(format_file_size(0), "0 bytes");
    assert_eq!(format_file_size(7), "7 bytes");
    assert_eq!(format_file_size(1023), "1023 bytes");
}

#[test]
fn size_units_switch_at_powers_of_1024() {
    assert_eq!(format_file_size(1024), "1.00 KiB");
    assert_eq!(format_file_size(1024 * 1024 - 1), "1024.00 KiB");
    assert_eq!(format_file_size(1024 * 1024), "1.00 MiB");
    assert_eq!(format_file_size(1024 * 1024 * 1024 - 1), "1024.00 MiB");
    assert_eq!(format_file_size(1024 * 1024 * 1024), "1.00 GiB");
    assert_eq!(format_file_size(1024u64.pow(4) - 1), "1024.00 GiB");
    assert_eq!(format_file_size(1024u64.pow(4)), "1.00 TiB");
}

#[test]
fn size_with_two_decimals() {
    assert_eq!(format_file_size(1536), "1.50 KiB");
    assert_eq!(format_file_size(1100), "1.07 KiB");
    assert_eq!(format_file_size(5 * 1024 * 1024 + 300 * 1024), "5.29 MiB");
    assert_eq!(format_file_size(u64::MAX), "16777216.00 TiB");
}

#[test]
fn size_ties_round_to_even() {
    // 1152 / 1024 = 1.125 and 1408 / 1024 = 1.375 exactly
    assert_eq!(format_file_size(1152), "1.12 KiB");
    assert_eq!(format_file_size(1408), "1.38 KiB");
}

#[test]
fn modified_today() {
    let today = date(2024, 3, 1);
    let label = modified_label(at(today, 9, 5), Some(today), Some(date(2024, 2, 29)));
    assert_eq!(label, "Today at 09:05");
}

#[test]
fn modified_yesterday() {
    let today = date(2024, 3, 1);
    let label = modified_label(at(date(2024, 2, 29), 23, 59), Some(today), Some(date(2024, 2, 29)));
    assert_eq!(label, "Yesterday at 23:59");
}

#[test]
fn modified_earlier_shows_the_date() {
    let today = date(2024, 3, 1);
    let label = modified_label(at(date(2023, 12, 7), 0, 0), Some(today), Some(date(2024, 2, 29)));
    assert_eq!(label, "07/12/2023 at 00:00");
    let label = modified_label(at(date(2024, 3, 2), 14, 30), Some(today), None);
    assert_eq!(label, "02/03/2024 at 14:30");
}

#[test]
fn modified_years_outside_four_digits() {
    let today = Some(date(2024, 3, 1));
    assert_eq!(modified_label(at(date(33, 1, 2), 1, 2), today, None), "02/01/0033 at 01:02");
    assert_eq!(modified_label(at(date(-44, 3, 15), 12, 0), today, None), "15/03/-0044 at 12:00");
    assert_eq!(modified_label(at(date(12345, 6, 7), 8, 9), today, None), "07/06/+12345 at 08:09");
}

fn now() -> Timestamp {
    let secs = std::time::SystemTime::now()
        .duration_since(std::time::UNIX_EPOCH)
        .unwrap()
        .as_secs() as i64;
    Timestamp { secs, nanos: 0 }
}

#[test]
fn modified_today_unknown_shows_the_date() {
    let label = modified_label(at(date(2024, 3, 1), 9, 5), None, None);
    assert_eq!(label, "01/03/2024 at 09:05");
}

#[test]
fn modified_unknown_without_a_time() {
    assert_eq!(describe_modified(None, now()), "Unknown");
}

#[test]
fn modified_unknown_outside_the_calendar() {
    assert_eq!(describe_modified(Some(Timestamp { secs: i64::MAX, nanos: 0 }), now()), "Unknown");
}

#[test]
fn modified_with_now_outside_the_calendar_shows_the_date() {
    let far = Timestamp { secs: i64::MAX, nanos: 0 };
    let label = describe_modified(Some(now()), far);
    assert!(label.contains("/") && label.contains(" at "), "{}", label);
    assert!(!label.starts_with("Today") && !label.starts_with("Yesterday"), "{}", label);
}

#[test]
fn modified_now_reads_today_and_a_day_ago_yesterday() {
    let current = now();
    let secs = current.secs;
    let label = describe_modified(Some(current), current);
    assert!(label.starts_with("Today at "), "{}", label);
    let day_ago = describe_modified(Some(Timestamp { secs: secs - 86400, nanos: 0 }), current);
    assert!(day_ago.starts_with("Yesterday at "), "{}", day_ago);
    let old = describe_modified(Some(Timestamp { secs: 86400 * 365, nanos: 0 }), current);
    assert!(old.contains("/1971 at ") || old.contains("/1970 at "), "{}", old);
}
