use character_twister::logger::{
    create_logger, is_calendar_day, log_file_name, LogLevel, LogSink, LoggerPlan, LoggerSettings,
};
use chrono::NaiveDate;

const PATTERN: &str = "character_twister_%Y_%m_%d.log";

#[test]
fn log_file_is_named_after_the_day() {
    assert_eq!(log_file_name(2017, 3, 5), Some("character_twister_2017_03_05.log".to_string()));
    assert_eq!(log_file_name(2026, 10, 28), Some("character_twister_2026_10_28.log".to_string()));
    assert_eq!(log_file_name(1999, 12, 31), Some("character_twister_1999_12_31.log".to_string()));
}

#[test]
fn short_years_are_padded() {
    assert_eq!(log_file_name(0, 1, 1), Some("character_twister_0000_01_01.log".to_string()));
    assert_eq!(log_file_name(7, 7, 7), Some("character_twister_0007_07_07.log".to_string()));
    assert_eq!(log_file_name(987, 11, 9), Some("character_twister_0987_11_09.log".to_string()));
    assert_eq!(log_file_name(9999, 12, 31), Some("character_twister_9999_12_31.log".to_string()));
}

#[test]
fn days_off_the_calendar_have_no_log_file() {
    assert_eq!(log_file_name(2023, 4, 31), None);
    assert_eq!(log_file_name(2023, 2, 29), None);
    assert_eq!(log_file_name(1900, 2, 29), None);
    assert_eq!(log_file_name(2023, 0, 10), None);
    assert_eq!(log_file_name(2023, 13, 10), None);
    assert_eq!(log_file_name(2023, 1, 0), None);
    assert_eq!(log_file_name(2023, 1, 32), None);
    assert_eq!(log_file_name(2023, u32::MAX, u32::MAX), None);
}

#[test]
fn years_beyond_four_digits_have_no_log_file() {
    assert_eq!(log_file_name(-1, 1, 1), None);
    assert_eq!(log_file_name(10000, 1, 1), None);
    assert_eq!(log_file_name(i32::MIN, 1, 1), None);
    assert_eq!(log_file_name(i32::MAX, 1, 1), None);
}

#[test]
fn leap_days_have_a_log_file() {
    assert_eq!(log_file_name(2024, 2, 29), Some("character_twister_2024_02_29.log".to_string()));
    assert_eq!(log_file_name(2000, 2, 29), Some("character_twister_2000_02_29.log".to_string()));
    assert_eq!(log_file_name(0, 2, 29), Some("character_twister_0000_02_29.log".to_string()));
}

#[test]
fn calendar_agrees_with_chrono() {
    for year in [0, 1, 4, 99, 100, 400, 1582, 1900, 1999, 2000, 2023, 2024, 2100, 9996, 9999] {
        for month in 0..=13u32 {
            for day in 0..=32u32 {
                let date = NaiveDate::from_ymd_opt(year, month, day);
                assert_eq!(is_calendar_day(year, month, day), date.is_some(), "{} {} {}", year, month, day);
                assert_eq!(
                    log_file_name(year, month, day),
                    date.map(|d| d.format(PATTERN).to_string()),
                    "{} {} {}",
                    year,
                    month,
                    day
                );
            }
        }
    }
}

#[test]
fn leap_years_agree_with_chrono() {
    for year in 0..=9999 {
        assert_eq!(is_calendar_day(year, 2, 29), NaiveDate::from_ymd_opt(year, 2, 29).is_some(), "{}", year);
        assert!(is_calendar_day(year, 2, 28));
        assert!(!is_calendar_day(year, 2, 30));
    }
}

#[test]
fn logger_goes_to_the_file_when_it_opens() {
    let plan = create_logger(true);
    assert_eq!(plan.sink, LogSink::File);
    assert_eq!(plan.first_record, LogLevel::Info);
}

#[test]
fn logger_falls_back_to_the_terminal() {
    let plan = create_logger(false);
    assert_eq!(plan.sink, LogSink::Terminal);
    assert_eq!(plan.first_record, LogLevel::Warn);
}

#[test]
fn logger_settings_are_the_same_for_both_sinks() {
    let settings = LoggerSettings {
        filter: LogLevel::Info,
        time: LogLevel::Warn,
        level: LogLevel::Warn,
        target: LogLevel::Warn,
        location: LogLevel::Warn,
    };
    assert_eq!(
        create_logger(true),
        LoggerPlan { sink: LogSink::File, settings, first_record: LogLevel::Info }
    );
    assert_eq!(
        create_logger(false),
        LoggerPlan { sink: LogSink::Terminal, settings, first_record: LogLevel::Warn }
    );
}
