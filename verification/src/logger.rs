//! The logging sink: the name of the day's log file, and what to install
//! once it is known whether that file could be opened.

use vstd::prelude::*;

verus! {

/// The severity of a log record, the most severe first.
#[derive(Clone, Copy, Debug, PartialEq, Eq, Structural)]
pub enum LogLevel {
    Error,
    Warn,
    Info,
    Debug,
    Trace,
}

/// Where the log records go.
#[derive(Clone, Copy, Debug, PartialEq, Eq, Structural)]
pub enum LogSink {
    /// The day's log file, opened for appending.
    File,
    /// The terminal, for want of the file.
    Terminal,
}

/// How the sink filters and decorates its records.
#[derive(Clone, Copy, Debug, PartialEq, Eq, Structural)]
pub struct LoggerSettings {
    /// Records less severe than this are dropped.
    pub filter: LogLevel,
    /// The records that carry a timestamp: those at least this severe.
    pub time: LogLevel,
    /// The records that carry their severity.
    pub level: LogLevel,
    /// The records that carry the module they come from.
    pub target: LogLevel,
    /// The records that carry their place in the source.
    pub location: LogLevel,
}

/// The sink to install, its settings, and the severity of the first record,
/// which tells how the opening of the log file went.
#[derive(Clone, Copy, Debug, PartialEq, Eq, Structural)]
pub struct LoggerPlan {
    pub sink: LogSink,
    pub settings: LoggerSettings,
    pub first_record: LogLevel,
}

/// Records from `Info` upwards pass; all four decorations are set to `Warn`.
pub open spec fn logger_settings() -> LoggerSettings {
    LoggerSettings {
        filter: LogLevel::Info,
        time: LogLevel::Warn,
        level: LogLevel::Warn,
        target: LogLevel::Warn,
        location: LogLevel::Warn,
    }
}

/// With the log file open, log to it and say so at `Info`; without it, log
/// to the terminal and warn that the file is missing. The settings are the
/// same either way.
pub open spec fn logger_plan(file_opened: bool) -> LoggerPlan {
    LoggerPlan {
        sink: if file_opened { LogSink::File } else { LogSink::Terminal },
        settings: logger_settings(),
        first_record: if file_opened { LogLevel::Info } else { LogLevel::Warn },
    }
}

/// Decides what to install as the logging sink, given whether the day's log
/// file could be opened.
pub fn create_logger(file_opened: bool) -> (plan: LoggerPlan)
    ensures
        plan == logger_plan(file_opened),
{
    let settings = LoggerSettings {
        filter: LogLevel::Info,
        time: LogLevel::Warn,
        level: LogLevel::Warn,
        target: LogLevel::Warn,
        location: LogLevel::Warn,
    };
    if file_opened {
        LoggerPlan { sink: LogSink::File, settings, first_record: LogLevel::Info }
    } else {
        LoggerPlan { sink: LogSink::Terminal, settings, first_record: LogLevel::Warn }
    }
}

/// The leap years of the Gregorian calendar, carried back before its start.
pub open spec fn is_leap_year(year: int) -> bool {
    year % 4 == 0 && (year % 100 != 0 || year % 400 == 0)
}

/// The number of days of a month.
pub open spec fn days_in_month(year: int, month: int) -> int {
    if month == 2 {
        if is_leap_year(year) { 29 } else { 28 }
    } else if month == 4 || month == 6 || month == 9 || month == 11 {
        30
    } else {
        31
    }
}

/// A day of the calendar in a year that four digits write.
pub open spec fn is_log_date(year: int, month: int, day: int) -> bool {
    &&& 0 <= year <= 9999
    &&& 1 <= month <= 12
    &&& 1 <= day <= days_in_month(year, month)
}

/// The character that writes the digit `d`.
pub open spec fn digit_char(d: int) -> char {
    ('0' as int + d) as char
}

/// `n`, under 100, in two digits.
pub open spec fn two_digits(n: int) -> Seq<char> {
    seq![digit_char(n / 10), digit_char(n % 10)]
}

/// `n`, under 10000, in four digits.
pub open spec fn four_digits(n: int) -> Seq<char> {
    two_digits(n / 100) + two_digits(n % 100)
}

/// What a date field writes: `Y` the year in four digits, `m` the month and
/// `d` the day in two.
pub open spec fn date_field(field: char, year: int, month: int, day: int) -> Seq<char> {
    if field == 'Y' {
        four_digits(year)
    } else if field == 'm' {
        two_digits(month)
    } else {
        two_digits(day)
    }
}

/// A pattern of plain text and the date fields `%Y`, `%m` and `%d`: every
/// `%` in it starts one of the three.
pub open spec fn is_date_pattern(pattern: Seq<char>) -> bool
    decreases pattern.len(),
{
    if pattern.len() == 0 {
        true
    } else if pattern[0] == '%' {
        &&& pattern.len() >= 2
        &&& (pattern[1] == 'Y' || pattern[1] == 'm' || pattern[1] == 'd')
        &&& is_date_pattern(pattern.skip(2))
    } else {
        is_date_pattern(pattern.skip(1))
    }
}

/// The date under a date pattern: the fields written out, the text between
/// them as it stands.
pub open spec fn formatted_date(pattern: Seq<char>, year: int, month: int, day: int) -> Seq<char>
    decreases pattern.len(),
{
    if pattern.len() == 0 {
        Seq::<char>::empty()
    } else if pattern[0] == '%' && pattern.len() >= 2 {
        date_field(pattern[1], year, month, day) + formatted_date(
            pattern.skip(2),
            year,
            month,
            day,
        )
    } else {
        seq![pattern[0]] + formatted_date(pattern.skip(1), year, month, day)
    }
}

/// The name of the log file of a day: `character_twister_`, the year, the
/// month and the day with `_` between them, and `.log`.
pub open spec fn log_file_name_of(year: int, month: int, day: int) -> Seq<char> {
    "character_twister_"@ + four_digits(year) + "_"@ + two_digits(month) + "_"@ + two_digits(day)
        + ".log"@
}

/// Calls `chrono::NaiveDate::from_ymd_opt` and formats the date with
/// `chrono::NaiveDate::format`.
///
/// Claimed of `chrono`: a day of the proleptic Gregorian calendar in a year
/// from 0 to 9999 makes a date; `%Y` writes such a year in four digits, `%m`
/// and `%d` write month and day in two, each padded with zeros; text without
/// `%` is written as it stands.
#[verifier::external_body]
fn format_date(year: i32, month: u32, day: u32, pattern: &str) -> (text: Option<String>)
    requires
        is_log_date(year as int, month as int, day as int),
        is_date_pattern(pattern@),
    ensures
        (match text {
            Some(t) => t@ == formatted_date(pattern@, year as int, month as int, day as int),
            None => false,
        }),
{
    match chrono::NaiveDate::from_ymd_opt(year, month, day) {
        Some(date) => Some(date.format(pattern).to_string()),
        None => None,
    }
}

/// Text without `%` at the head of a pattern is written as it stands.
proof fn lemma_pattern_text(text: Seq<char>, rest: Seq<char>, year: int, month: int, day: int)
    requires
        !text.contains('%'),
    ensures
        is_date_pattern(text + rest) == is_date_pattern(rest),
        formatted_date(text + rest, year, month, day) == text + formatted_date(
            rest,
            year,
            month,
            day,
        ),
    decreases text.len(),
{
    if text.len() == 0 {
        assert(text + rest =~= rest);
        assert(text + formatted_date(rest, year, month, day) =~= formatted_date(
            rest,
            year,
            month,
            day,
        ));
    } else {
        let tail = text.skip(1);
        assert(text.contains(text[0]));
        assert forall|i: int| 0 <= i < tail.len() implies tail[i] != '%' by {
            assert(text.contains(text[i + 1]));
        }
        lemma_pattern_text(tail, rest, year, month, day);
        assert((text + rest).skip(1) =~= tail + rest);
        assert(seq![text[0]] + (tail + formatted_date(rest, year, month, day)) =~= text
            + formatted_date(rest, year, month, day));
    }
}

/// A date field at the head of a pattern is written out.
proof fn lemma_pattern_field(field: char, rest: Seq<char>, year: int, month: int, day: int)
    requires
        field == 'Y' || field == 'm' || field == 'd',
    ensures
        is_date_pattern(seq!['%', field] + rest) == is_date_pattern(rest),
        formatted_date(seq!['%', field] + rest, year, month, day) == date_field(
            field,
            year,
            month,
            day,
        ) + formatted_date(rest, year, month, day),
{
    assert((seq!['%', field] + rest).skip(2) =~= rest);
}

/// The pattern of the log file's name is a date pattern, and writes the name.
proof fn lemma_log_file_pattern(year: int, month: int, day: int)
    ensures
        is_date_pattern("character_twister_%Y_%m_%d.log"@),
        formatted_date("character_twister_%Y_%m_%d.log"@, year, month, day) == log_file_name_of(
            year,
            month,
            day,
        ),
{
    reveal_strlit("character_twister_%Y_%m_%d.log");
    reveal_strlit("character_twister_");
    reveal_strlit("_");
    reveal_strlit(".log");
    let head = "character_twister_"@;
    let bar = "_"@;
    let tail = ".log"@;
    let empty = Seq::<char>::empty();
    let after_day = tail + empty;
    let from_day = seq!['%', 'd'] + after_day;
    let after_month = bar + from_day;
    let from_month = seq!['%', 'm'] + after_month;
    let after_year = bar + from_month;
    let from_year = seq!['%', 'Y'] + after_year;
    assert("character_twister_%Y_%m_%d.log"@ =~= head + from_year);
    lemma_pattern_text(tail, empty, year, month, day);
    lemma_pattern_field('d', after_day, year, month, day);
    lemma_pattern_text(bar, from_day, year, month, day);
    lemma_pattern_field('m', after_month, year, month, day);
    lemma_pattern_text(bar, from_month, year, month, day);
    lemma_pattern_field('Y', after_year, year, month, day);
    lemma_pattern_text(head, from_year, year, month, day);
    assert(formatted_date(head + from_year, year, month, day) =~= log_file_name_of(
        year,
        month,
        day,
    ));
}

/// Tells whether the three numbers are a day of the calendar in a year from
/// 0 to 9999.
pub fn is_calendar_day(year: i32, month: u32, day: u32) -> (exists: bool)
    ensures
        exists == is_log_date(year as int, month as int, day as int),
{
    if year < 0 || year > 9999 || month < 1 || month > 12 || day < 1 {
        return false;
    }
    let leap = year % 4 == 0 && (year % 100 != 0 || year % 400 == 0);
    let days: u32 = if month == 2 {
        if leap { 29 } else { 28 }
    } else if month == 4 || month == 6 || month == 9 || month == 11 {
        30
    } else {
        31
    };
    day <= days
}

/// Names the log file of the given day, as
/// `character_twister_<YYYY>_<MM>_<DD>.log`. There is a name for every day of
/// the calendar in a year from 0 to 9999, and for nothing else.
pub fn log_file_name(year: i32, month: u32, day: u32) -> (name: Option<String>)
    ensures
        name is Some <==> is_log_date(year as int, month as int, day as int),
        name matches Some(n) ==> n@ == log_file_name_of(year as int, month as int, day as int),
{
    if !is_calendar_day(year, month, day) {
        return None;
    }
    proof {
        lemma_log_file_pattern(year as int, month as int, day as int);
    }
    format_date(year, month, day, "character_twister_%Y_%m_%d.log")
}

} // verus!
