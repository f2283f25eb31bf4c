use exbar::log::{enabled, error, format_level, format_line, format_timestamp, info, LogLevel};

#[test]
fn timestamps_are_utc_time_of_day() {
    assert_eq!(format_timestamp(0, 0), "00:00:00.000");
    assert_eq!(format_timestamp(86400 + 3600 * 13 + 60 * 5 + 9, 42), "13:05:09.042");
    assert_eq!(format_timestamp(86399, 999), "23:59:59.999");
}

#[test]
fn level_labels_are_five_wide() {
    assert_eq!(format_level(LogLevel::Error), "ERROR");
    assert_eq!(format_level(LogLevel::Warn), "WARN ");
    assert_eq!(format_level(LogLevel::Info), "INFO ");
    assert_eq!(format_level(LogLevel::Debug), "DEBUG");
    assert_eq!(format_level(LogLevel::Trace), "TRACE");
}

#[test]
fn lines() {
    assert_eq!(info("12:00:00.000", 4321, "hello"), "12:00:00.000 [INFO ] pid=4321 hello");
    assert_eq!(error("t", 0, "bad"), "t [ERROR] pid=0 bad");
    assert_eq!(format_line("t", "WARN ", 7, ""), "t [WARN ] pid=7 ");
}

#[test]
fn filtering() {
    assert!(enabled(LogLevel::Error, LogLevel::Info));
    assert!(enabled(LogLevel::Info, LogLevel::Info));
    assert!(!enabled(LogLevel::Debug, LogLevel::Info));
    assert!(enabled(LogLevel::Trace, LogLevel::Trace));
}

#[test]
fn extension_log_tags() {
    assert_eq!(exbar::log::log_info("hook up"), "[INFO ] hook up");
    assert_eq!(exbar::log::log_error("no slot"), "[ERROR] no slot");
}
