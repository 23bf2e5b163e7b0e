use splitwatch::export::{record_lines, render_record, LogRecord};
use splitwatch::format_time;
use splitwatch::timefmt::format_clock;
use splitwatch::wall::{clock_stamp_text, now_wall_millis};

#[test]
fn format_time_zero() {
    assert_eq!(format_time(0), "00:00:00.000");
}

#[test]
fn format_time_typical() {
    // 1 h, 2 min, 3 s, 4 ms
    assert_eq!(format_time(3_723_004), "01:02:03.004");
}

#[test]
fn format_time_sub_second() {
    assert_eq!(format_time(7), "00:00:00.007");
    assert_eq!(format_time(70), "00:00:00.070");
    assert_eq!(format_time(700), "00:00:00.700");
}

#[test]
fn format_time_minute_boundaries() {
    assert_eq!(format_time(59_999), "00:00:59.999");
    assert_eq!(format_time(60_000), "00:01:00.000");
    assert_eq!(format_time(3_599_999), "00:59:59.999");
    assert_eq!(format_time(3_600_000), "01:00:00.000");
}

#[test]
fn format_time_hours_grow_past_two_digits() {
    // 100 hours
    assert_eq!(format_time(360_000_000), "100:00:00.000");
}

#[test]
fn format_clock_pads_every_field() {
    assert_eq!(format_clock(2024, 1, 5, 9, 30), "2024-01-05 09:30");
    assert_eq!(format_clock(987, 12, 31, 23, 59), "0987-12-31 23:59");
    assert_eq!(format_clock(0, 1, 1, 0, 0), "0000-01-01 00:00");
    assert_eq!(format_clock(12345, 6, 7, 8, 9), "12345-06-07 08:09");
}

#[test]
fn record_lines_exact_layout() {
    let rec = LogRecord {
        depth: 3,
        name: "Outline".to_string(),
        start_wall: 0,
        end_wall: 0,
        duration_ms: 4_000,
    };
    let lines = record_lines(&rec, "2024-01-05 09:30", "2024-01-05 09:31");
    assert_eq!(lines.len(), 5);
    assert_eq!(lines[0], "*** Outline");
    assert_eq!(lines[1], "  :LOGBOOK:");
    assert_eq!(
        lines[2],
        "  CLOCK: [2024-01-05 09:30]--[2024-01-05 09:31] => 00:00:04.000"
    );
    assert_eq!(lines[3], "  :END:");
    assert_eq!(lines[4], "");
}

#[test]
fn clock_stamp_text_renders_real_calendar_fields() {
    // 2023-11-14 22:13:20 UTC; the local rendering may shift the day and
    // hour, but the shape and field ranges are fixed.
    let s = clock_stamp_text(1_700_000_000_000);
    let chars: Vec<char> = s.chars().collect();
    assert_eq!(chars.len(), 16);
    assert_eq!(chars[4], '-');
    assert_eq!(chars[7], '-');
    assert_eq!(chars[10], ' ');
    assert_eq!(chars[13], ':');
    for (k, c) in chars.iter().enumerate() {
        if k != 4 && k != 7 && k != 10 && k != 13 {
            assert!(c.is_ascii_digit());
        }
    }
    // A fixed stamp well after 1970 cannot land in year zero, whatever the
    // machine's zone: the fields really came from the clock library.
    assert_ne!(&s[0..4], "0000");
    let year: u64 = s[0..4].parse().unwrap();
    assert!((2022..=2025).contains(&year));
}

#[test]
fn render_record_uses_wall_stamps() {
    let rec = LogRecord {
        depth: 2,
        name: "Draft".to_string(),
        start_wall: 1_700_000_000_000,
        end_wall: 1_700_000_060_000,
        duration_ms: 60_000,
    };
    let lines = render_record(&rec);
    assert_eq!(lines.len(), 5);
    assert_eq!(lines[0], "** Draft");
    assert!(lines[2].starts_with("  CLOCK: ["));
    assert!(lines[2].ends_with("] => 00:01:00.000"));
    assert!(!lines[2].contains("0000-01-01"));
}

#[test]
fn now_wall_millis_is_after_unix_epoch() {
    // The clamp to zero only fires for pre-1970 clocks.
    assert!(now_wall_millis() > 0);
}
