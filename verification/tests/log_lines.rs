use admiral::logging::{format_log_line, LogLevel};

#[test]
fn line_layout() {
    assert_eq!(
        format_log_line("01-02-2024 | 10:11:12", LogLevel::Warning, "hi"),
        "[ 01-02-2024 | 10:11:12 ]  =>  WARN:  hi"
    );
    assert_eq!(format_log_line("t", LogLevel::Fatal, ""), "[ t ]  => FATAL:  ");
}

#[test]
fn labels_are_five_wide() {
    assert_eq!(LogLevel::Fatal.label(), "FATAL");
    assert_eq!(LogLevel::Error.label(), "ERROR");
    assert_eq!(LogLevel::Warning.label(), " WARN");
    assert_eq!(LogLevel::Info.label(), " INFO");
}

use admiral::logging::timestamp_text;
use chrono::NaiveDate;

#[test]
fn timestamp_layout() {
    assert_eq!(timestamp_text(3, 4, 2024, 5, 6, 7), "03-04-2024 | 05:06:07");
    assert_eq!(timestamp_text(31, 12, 999, 23, 59, 60), "31-12-0999 | 23:59:60");
    assert_eq!(timestamp_text(1, 1, 12345, 0, 0, 0), "01-01-+12345 | 00:00:00");
    assert_eq!(timestamp_text(1, 1, -5, 0, 0, 0), "01-01--0005 | 00:00:00");
    assert_eq!(timestamp_text(1, 1, -12345, 0, 0, 0), "01-01--12345 | 00:00:00");
}

/// The layout is chrono's `%d-%m-%Y | %H:%M:%S`.
#[test]
fn timestamp_agrees_with_chrono() {
    let dates = [(2024, 2, 29), (7, 1, 9), (999, 12, 31), (10000, 6, 15), (-44, 3, 15), (-20000, 1, 1), (0, 1, 1)];
    let times = [(0, 0, 0, 0), (9, 5, 3, 0), (23, 59, 59, 1_500_000_000)];
    for &(y, m, d) in dates.iter() {
        for &(h, mi, s, nano) in times.iter() {
            let at = NaiveDate::from_ymd_opt(y, m, d).unwrap().and_hms_nano_opt(h, mi, s, nano).unwrap();
            let theirs = at.format("%d-%m-%Y | %H:%M:%S").to_string();
            let second = s + nano / 1_000_000_000;
            assert_eq!(timestamp_text(d, m, y, h, mi, second), theirs);
        }
    }
}
