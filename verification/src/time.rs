//! Clock access and calendar arithmetic.
//!
//! Readings of the wall clock and of the local time zone come through thin
//! trusted wrappers; everything computed from them — calendar math, weekday
//! and formatting — is verified.

use std::fmt::Write;
use vstd::prelude::*;
use crate::text::{spec_dec, spec_dec_pad, u128_to_dec, u64_to_dec_pad2};

verus! {

/// Time zone of the host: offset from UTC and a display name.
#[derive(Debug, Clone)]
pub struct TimezoneInfo {
    pub offset_hours: i32,
    pub offset_minutes: i32,
    pub name: String,
}

/// The renderings of a point in time that [`get_time`] can produce.
#[derive(Debug, Clone, Copy, PartialEq)]
pub enum TimeFormat {
    /// Unix timestamp in seconds.
    Unix,
    /// Unix timestamp in milliseconds.
    UnixMillis,
    /// System time with its UTC offset.
    SystemTime,
    /// Local time.
    LocalTime,
    /// ISO 8601 text, UTC.
    Iso8601,
    /// Time since the program timer started.
    Relative,
}

/// One reading of the clock in every format at once.
#[derive(Debug, Clone)]
pub struct TimeInfo {
    pub unix: u64,
    pub unix_millis: u128,
    pub system_time: String,
    pub local_time: String,
    pub iso8601: String,
    pub relative: u128,
}

/// Relies on `std::time::SystemTime::now`: the wall clock, read as
/// nanoseconds since the Unix epoch (zero for a clock before the epoch).
#[verifier::external_body]
pub(crate) fn now_unix_nanos() -> u128 {
    match std::time::SystemTime::now().duration_since(std::time::UNIX_EPOCH) {
        Ok(d) => d.as_nanos(),
        Err(_) => 0,
    }
}

/// Relies on `chrono::Local::now`: the local offset from UTC in seconds
/// (west of UTC is positive), which chrono keeps strictly within one day.
#[verifier::external_body]
fn local_offset_seconds() -> (r: i32)
    ensures
        -86400 < r < 86400,
{
    chrono::Local::now().offset().utc_minus_local()
}

/// Relies on `chrono::Local::now`: the local date and time rendered as
/// `YYYY-MM-DD HH:MM:SS`.
#[verifier::external_body]
fn local_datetime_string() -> String {
    chrono::Local::now().format("%Y-%m-%d %H:%M:%S").to_string()
}

/// Relies on `chrono::Local::now`: the local date and time rendered with
/// fractional seconds, `YYYY-MM-DD HH:MM:SS.ffffff`.
#[verifier::external_body]
fn local_datetime_string_micros() -> String {
    chrono::Local::now().format("%Y-%m-%d %H:%M:%S%.6f").to_string()
}

/// Relies on `chrono::Utc::now`: the current UTC time in ISO 8601 form,
/// `YYYY-MM-DDTHH:MM:SS.ffffffZ`.
#[verifier::external_body]
fn utc_iso8601_string() -> String {
    chrono::Utc::now().format("%Y-%m-%dT%H:%M:%S%.6fZ").to_string()
}

/// Relies on `chrono::Local::now` and `chrono::DateTime::format`: the local
/// date and time rendered by the caller's format string.  `None` when the
/// format string is malformed — chrono's renderer then reports an error,
/// which writing into a buffer surfaces without panicking.
#[verifier::external_body]
fn local_now_formatted(format: &str) -> Option<String> {
    let mut s = String::new();
    match write!(s, "{}", chrono::Local::now().format(format)) {
        Ok(()) => Some(s),
        Err(_) => None,
    }
}

/// The `UTC+HH:MM` display name for an offset split into hours and minutes.
pub open spec fn spec_timezone_name(hours: int, minutes: int) -> Seq<char>
    recommends
        -24 < hours < 24,
        -60 < minutes < 60,
{
    let sign = if hours < 0 {
        seq!['-']
    } else {
        seq!['+']
    };
    let h = if hours < 0 {
        -hours
    } else {
        hours
    };
    let m = if minutes < 0 {
        -minutes
    } else {
        minutes
    };
    "UTC"@ + sign + spec_dec_pad(h, 2) + seq![':'] + spec_dec_pad(m, 2)
}

/// Renders a time zone offset as `UTC+HH:MM`.
fn format_timezone_name(hours: i32, minutes: i32) -> (r: String)
    requires
        -24 < hours < 24,
        -60 < minutes < 60,
    ensures
        r@ == spec_timezone_name(hours as int, minutes as int),
{
    proof {
        reveal_strlit("UTC");
        reveal_strlit("+");
        reveal_strlit("-");
        reveal_strlit(":");
    }
    let mut r = String::new();
    r.append("UTC");
    if hours < 0 {
        r.append("-");
    } else {
        r.append("+");
    }
    let h: i32 = if hours < 0 {
        -hours
    } else {
        hours
    };
    let m: i32 = if minutes < 0 {
        -minutes
    } else {
        minutes
    };
    let hd = u64_to_dec_pad2(h as u64);
    r.append(hd.as_str());
    r.append(":");
    let md = u64_to_dec_pad2(m as u64);
    r.append(md.as_str());
    proof {
        assert(r@ =~= spec_timezone_name(hours as int, minutes as int));
    }
    r
}

/// Reads the host's time zone: offset hours, offset minutes and a
/// `UTC+HH:MM` name.  The sign convention follows the underlying reading:
/// west of UTC is positive.
pub fn get_system_timezone() -> (r: TimezoneInfo)
    ensures
        -24 < r.offset_hours < 24,
        -60 < r.offset_minutes < 60,
        r.name@ == spec_timezone_name(r.offset_hours as int, r.offset_minutes as int),
{
    let offset_seconds = local_offset_seconds();
    let offset_hours = offset_seconds / 3600;
    let offset_minutes = (offset_seconds % 3600) / 60;
    let name = format_timezone_name(offset_hours, offset_minutes);
    TimezoneInfo { offset_hours, offset_minutes, name }
}

/// A program-start reference point for uptime readings: an explicitly
/// constructed context object handed to whatever needs relative time.
pub struct ProgramTimer {
    start_nanos: u128,
}

impl ProgramTimer {
    /// Starts the timer at the current clock reading.
    pub fn new() -> ProgramTimer {
        ProgramTimer { start_nanos: now_unix_nanos() }
    }

    /// Nanoseconds since the timer started; zero if the clock went
    /// backwards.
    pub fn uptime_nanos(&self) -> u128 {
        let now = now_unix_nanos();
        if now < self.start_nanos {
            0
        } else {
            now - self.start_nanos
        }
    }

    /// Microseconds since the timer started.
    pub fn uptime_micros(&self) -> u128 {
        self.uptime_nanos() / 1000
    }

    /// Milliseconds since the timer started.
    pub fn uptime_millis(&self) -> u128 {
        self.uptime_nanos() / 1000000
    }

    /// Seconds since the timer started.
    pub fn uptime_seconds(&self) -> u128 {
        self.uptime_millis() / 1000
    }
}

/// Seconds since the timer started.
pub fn get_program_uptime_seconds(timer: &ProgramTimer) -> u128 {
    timer.uptime_seconds()
}

/// True for years with 366 days: divisible by 4 except century years not
/// divisible by 400.
#[verifier::rlimit(100)]
#[verifier::spinoff_prover]
pub fn is_leap_year(year: i32) -> (r: bool)
    ensures
        r == spec_is_leap_year(year as int),
{
    year % 4 == 0 && (year % 100 != 0 || year % 400 == 0)
}

/// Whether a year has 366 days.
pub open spec fn spec_is_leap_year(year: int) -> bool {
    year % 4 == 0 && (year % 100 != 0 || year % 400 == 0)
}

/// Days in a year: 366 in a leap year, 365 otherwise.
pub open spec fn spec_days_in_year(year: int) -> int {
    if spec_is_leap_year(year) {
        366
    } else {
        365
    }
}

/// The number of days in the given year.
pub fn get_days_in_year(year: i32) -> (r: u32)
    ensures
        r == spec_days_in_year(year as int),
{
    if is_leap_year(year) {
        366
    } else {
        365
    }
}

/// Days in a month of a year; `0` for a month outside `1..=12`.
pub open spec fn spec_days_in_month(year: int, month: int) -> int {
    if month == 1 || month == 3 || month == 5 || month == 7 || month == 8 || month == 10 || month
        == 12 {
        31
    } else if month == 4 || month == 6 || month == 9 || month == 11 {
        30
    } else if month == 2 {
        if spec_is_leap_year(year) {
            29
        } else {
            28
        }
    } else {
        0
    }
}

/// The number of days in the given month of the given year; `0` for a month
/// outside `1..=12`.
pub fn get_days_in_month(year: i32, month: u32) -> (r: u32)
    ensures
        r == spec_days_in_month(year as int, month as int),
{
    match month {
        1 | 3 | 5 | 7 | 8 | 10 | 12 => 31,
        4 | 6 | 9 | 11 => 30,
        2 => if is_leap_year(year) {
            29
        } else {
            28
        },
        _ => 0,
    }
}

/// Days of whole years from 1970 up to (excluding) `year`; zero when `year`
/// is 1970 or earlier.
pub open spec fn spec_days_of_years_since_epoch(year: int) -> int
    decreases year - 1970,
{
    if year <= 1970 {
        0
    } else {
        spec_days_of_years_since_epoch(year - 1) + spec_days_in_year(year - 1)
    }
}

/// Days of whole months of `year` before `month`.
pub open spec fn spec_days_of_months(year: int, month: int) -> int
    decreases month,
{
    if month <= 1 {
        0
    } else {
        spec_days_of_months(year, month - 1) + spec_days_in_month(year, month - 1)
    }
}

/// The day number of a date counted from the Unix epoch: whole years, plus
/// whole months, plus `day - 1`.
pub open spec fn spec_days_since_epoch(year: int, month: int, day: int) -> int {
    spec_days_of_years_since_epoch(year) + spec_days_of_months(year, month) + day - 1
}

/// Counts the days from the Unix epoch to the given date: whole years since
/// 1970, whole months of the final year, and the day of the month.
pub fn days_since_epoch(year: i32, month: u32, day: u32) -> (r: i64)
    ensures
        r == spec_days_since_epoch(year as int, month as int, day as int),
{
    let mut days: i64 = 0;
    let mut y: i32 = 1970;
    while y < year
        invariant
            1970 <= y,
            y <= year || y == 1970,
            days == spec_days_of_years_since_epoch(y as int),
            0 <= days <= (y - 1970) * 366,
        decreases year - y,
    {
        days = days + get_days_in_year(y) as i64;
        y = y + 1;
    }
    proof {
        if year <= 1970 {
            assert(days == spec_days_of_years_since_epoch(year as int));
        }
    }
    let mut m: u32 = 1;
    let ghost year_days: i64 = days;
    while m < month
        invariant
            1 <= m,
            m <= month || m == 1,
            days == year_days + spec_days_of_months(year as int, m as int),
            year_days <= days <= year_days + (m - 1) * 31,
            0 <= year_days <= 0x7fff_ffff_i64 * 366,
        decreases month - m,
    {
        days = days + get_days_in_month(year, m) as i64;
        m = m + 1;
    }
    proof {
        if month <= 1 {
            assert(days == year_days + spec_days_of_months(year as int, month as int));
        }
    }
    days + day as i64 - 1
}

/// True when the month is in `1..=12` and the day is in `1..=` the month's
/// length.
pub open spec fn spec_is_valid_date(year: int, month: int, day: int) -> bool {
    &&& 1 <= month <= 12
    &&& 1 <= day <= spec_days_in_month(year, month)
}

/// The names of the week days, Sunday first.
pub open spec fn spec_weekday_name(weekday: int) -> Seq<char> {
    if weekday == 0 {
        "Sunday"@
    } else if weekday == 1 {
        "Monday"@
    } else if weekday == 2 {
        "Tuesday"@
    } else if weekday == 3 {
        "Wednesday"@
    } else if weekday == 4 {
        "Thursday"@
    } else if weekday == 5 {
        "Friday"@
    } else if weekday == 6 {
        "Saturday"@
    } else {
        "Unknown"@
    }
}

/// The names of the months, January first.
pub open spec fn spec_month_name(month: int) -> Seq<char> {
    if month == 1 {
        "January"@
    } else if month == 2 {
        "February"@
    } else if month == 3 {
        "March"@
    } else if month == 4 {
        "April"@
    } else if month == 5 {
        "May"@
    } else if month == 6 {
        "June"@
    } else if month == 7 {
        "July"@
    } else if month == 8 {
        "August"@
    } else if month == 9 {
        "September"@
    } else if month == 10 {
        "October"@
    } else if month == 11 {
        "November"@
    } else if month == 12 {
        "December"@
    } else {
        "Unknown"@
    }
}

/// The natural rendering of a span given in milliseconds: `+NNNms` under one
/// second, otherwise `+` followed by days, hours, minutes and seconds, each
/// omitted while every larger unit is zero.
pub open spec fn spec_natural_time(millis: int) -> Seq<char>
    recommends
        millis >= 0,
{
    if millis < 1000 {
        seq!['+'] + spec_dec(millis) + "ms"@
    } else {
        let total_seconds = millis / 1000;
        let days = total_seconds / 86400;
        let hours = (total_seconds % 86400) / 3600;
        let minutes = (total_seconds % 3600) / 60;
        let seconds = total_seconds % 60;
        let day_part = if days > 0 {
            spec_dec(days) + seq!['d']
        } else {
            Seq::<char>::empty()
        };
        let hour_part = if hours > 0 || days > 0 {
            spec_dec(hours) + seq!['h']
        } else {
            Seq::<char>::empty()
        };
        let minute_part = if minutes > 0 || hours > 0 || days > 0 {
            spec_dec(minutes) + seq!['m']
        } else {
            Seq::<char>::empty()
        };
        seq!['+'] + day_part + hour_part + minute_part + spec_dec(seconds) + seq!['s']
    }
}

/// Time utilities: clock readings, calendar arithmetic and natural-time
/// formatting.
pub struct TimeUtils;

impl TimeUtils {
    /// The current Unix timestamp in seconds.
    pub fn unix_timestamp() -> u64 {
        let nanos = now_unix_nanos();
        (nanos / 1000000000) as u64
    }

    /// The current Unix timestamp in milliseconds.
    pub fn unix_timestamp_millis() -> u128 {
        now_unix_nanos() / 1000000
    }

    /// The local time with its UTC offset appended, e.g.
    /// `2024-05-01 10:00:00.000000 UTC+02:00`.
    pub fn system_time_string() -> String {
        proof {
            reveal_strlit(" ");
        }
        let mut r = local_datetime_string_micros();
        r.append(" ");
        let tz = get_system_timezone();
        r.append(tz.name.as_str());
        r
    }

    /// The local time as `YYYY-MM-DD HH:MM:SS`.
    pub fn local_time_string() -> String {
        local_datetime_string()
    }

    /// The current UTC time in ISO 8601 form.
    pub fn iso8601_time_string() -> String {
        utc_iso8601_string()
    }

    /// The current local time rendered by the caller's format string; the
    /// empty string when the format string is malformed.
    pub fn format_time(format: &str) -> String {
        match local_now_formatted(format) {
            Some(s) => s,
            None => String::new(),
        }
    }

    /// The timer's uptime rendered naturally, e.g. `+1h3m20s`.
    pub fn program_uptime_string(timer: &ProgramTimer) -> (r: String)
        ensures
            exists|m: int| 0 <= m && r@ == spec_natural_time(m),
    {
        let millis = timer.uptime_millis();
        let r = Self::format_natural_time(millis);
        proof {
            assert(r@ == spec_natural_time(millis as int));
        }
        r
    }

    /// Renders a span of milliseconds naturally: `+250ms`, `+45s`,
    /// `+2m0s`, `+1d0h4m5s`.
    pub fn format_natural_time(millis: u128) -> (r: String)
        ensures
            r@ == spec_natural_time(millis as int),
    {
        proof {
            reveal_strlit("+");
            reveal_strlit("ms");
            reveal_strlit("d");
            reveal_strlit("h");
            reveal_strlit("m");
            reveal_strlit("s");
        }
        if millis < 1000 {
            let mut r = String::new();
            r.append("+");
            let digits = u128_to_dec(millis);
            r.append(digits.as_str());
            r.append("ms");
            proof {
                assert(r@ =~= spec_natural_time(millis as int));
            }
            r
        } else {
            let total_seconds = millis / 1000;
            let days = total_seconds / 86400;
            let hours = (total_seconds % 86400) / 3600;
            let minutes = (total_seconds % 3600) / 60;
            let seconds = total_seconds % 60;
            let mut r = String::new();
            r.append("+");
            if days > 0 {
                let d = u128_to_dec(days);
                r.append(d.as_str());
                r.append("d");
            }
            if hours > 0 || days > 0 {
                let h = u128_to_dec(hours);
                r.append(h.as_str());
                r.append("h");
            }
            if minutes > 0 || hours > 0 || days > 0 {
                let m = u128_to_dec(minutes);
                r.append(m.as_str());
                r.append("m");
            }
            let s = u128_to_dec(seconds);
            r.append(s.as_str());
            r.append("s");
            proof {
                assert(r@ =~= spec_natural_time(millis as int));
            }
            r
        }
    }

    /// Seconds since the timer started.
    pub fn program_uptime_seconds(timer: &ProgramTimer) -> u128 {
        timer.uptime_seconds()
    }

    /// Milliseconds since the timer started.
    pub fn program_uptime_millis(timer: &ProgramTimer) -> u128 {
        timer.uptime_millis()
    }

    /// Microseconds since the timer started.
    pub fn program_uptime_micros(timer: &ProgramTimer) -> u128 {
        timer.uptime_micros()
    }

    /// Nanoseconds since the timer started.
    pub fn program_uptime_nanos(timer: &ProgramTimer) -> u128 {
        timer.uptime_nanos()
    }

    /// The timer's uptime at the given resolution: `0` seconds, `1`
    /// milliseconds, `2` microseconds, `3` nanoseconds; anything else reads
    /// milliseconds.
    pub fn program_uptime(level: u8, timer: &ProgramTimer) -> u128 {
        match level {
            0 => timer.uptime_seconds(),
            1 => timer.uptime_millis(),
            2 => timer.uptime_micros(),
            3 => timer.uptime_nanos(),
            _ => timer.uptime_millis(),
        }
    }

    /// One reading of the clock in every format.
    pub fn full_time_info(timer: &ProgramTimer) -> TimeInfo {
        get_current_time(timer)
    }

    /// The host's time zone.
    pub fn timezone_info() -> TimezoneInfo {
        get_system_timezone()
    }

    /// True when the month is in `1..=12` and the day fits the month.
    pub fn is_valid_date(year: i32, month: u32, day: u32) -> (r: bool)
        ensures
            r == spec_is_valid_date(year as int, month as int, day as int),
    {
        if month < 1 || month > 12 {
            return false;
        }
        if day < 1 || day > get_days_in_month(year, month) {
            return false;
        }
        true
    }

    /// The absolute difference in days between two dates.
    pub fn days_between_dates(
        year1: i32,
        month1: u32,
        day1: u32,
        year2: i32,
        month2: u32,
        day2: u32,
    ) -> (r: i64)
        ensures
            ({
                let d1 = spec_days_since_epoch(year1 as int, month1 as int, day1 as int);
                let d2 = spec_days_since_epoch(year2 as int, month2 as int, day2 as int);
                r == if d2 >= d1 {
                    d2 - d1
                } else {
                    d1 - d2
                }
            }),
    {
        let days1 = days_since_epoch(year1, month1, day1);
        let days2 = days_since_epoch(year2, month2, day2);
        proof {
            lemma_days_since_epoch_bounds(year1 as int, month1 as int, day1 as int);
            lemma_days_since_epoch_bounds(year2 as int, month2 as int, day2 as int);
        }
        if days2 >= days1 {
            days2 - days1
        } else {
            days1 - days2
        }
    }

    /// The weekday of a date, `0` Sunday through `6` Saturday, from its day
    /// number (the epoch day was a Thursday).
    pub fn get_weekday(year: i32, month: u32, day: u32) -> (r: u32)
        ensures
            spec_days_since_epoch(year as int, month as int, day as int) >= 0 ==> r == (
            spec_days_since_epoch(year as int, month as int, day as int) + 4) % 7,
    {
        let days = days_since_epoch(year, month, day);
        proof {
            lemma_days_since_epoch_bounds(year as int, month as int, day as int);
        }
        if days >= 0 {
            ((days + 4) % 7) as u32
        } else {
            let rem = (days + 4) % 7;
            if rem < 0 {
                (rem + 7) as u32
            } else {
                rem as u32
            }
        }
    }

    /// The English name of a weekday, `0` Sunday through `6` Saturday.
    pub fn get_weekday_name(weekday: u32) -> (r: &'static str)
        ensures
            r@ == spec_weekday_name(weekday as int),
    {
        proof {
            reveal_strlit("Sunday");
            reveal_strlit("Monday");
            reveal_strlit("Tuesday");
            reveal_strlit("Wednesday");
            reveal_strlit("Thursday");
            reveal_strlit("Friday");
            reveal_strlit("Saturday");
            reveal_strlit("Unknown");
        }
        match weekday {
            0 => "Sunday",
            1 => "Monday",
            2 => "Tuesday",
            3 => "Wednesday",
            4 => "Thursday",
            5 => "Friday",
            6 => "Saturday",
            _ => "Unknown",
        }
    }

    /// The English name of a month, `1` January through `12` December.
    pub fn get_month_name(month: u32) -> (r: &'static str)
        ensures
            r@ == spec_month_name(month as int),
    {
        proof {
            reveal_strlit("January");
            reveal_strlit("February");
            reveal_strlit("March");
            reveal_strlit("April");
            reveal_strlit("May");
            reveal_strlit("June");
            reveal_strlit("July");
            reveal_strlit("August");
            reveal_strlit("September");
            reveal_strlit("October");
            reveal_strlit("November");
            reveal_strlit("December");
            reveal_strlit("Unknown");
        }
        match month {
            1 => "January",
            2 => "February",
            3 => "March",
            4 => "April",
            5 => "May",
            6 => "June",
            7 => "July",
            8 => "August",
            9 => "September",
            10 => "October",
            11 => "November",
            12 => "December",
            _ => "Unknown",
        }
    }
}

/// Day numbers stay far inside `i64`: years fit in `i32` and each
/// contributes at most 366 days.
proof fn lemma_days_since_epoch_bounds(year: int, month: int, day: int)
    requires
        -0x8000_0000 <= year <= 0x7fff_ffff,
        0 <= month <= 0xffff_ffff,
        0 <= day <= 0xffff_ffff,
    ensures
        -0x4000_0000_0000_0000 < spec_days_since_epoch(year, month, day)
            < 0x4000_0000_0000_0000,
{
    lemma_days_of_years_bounds(year);
    lemma_days_of_months_bounds(year, month);
}

proof fn lemma_days_of_years_bounds(year: int)
    ensures
        year <= 1970 ==> spec_days_of_years_since_epoch(year) == 0,
        year > 1970 ==> 0 <= spec_days_of_years_since_epoch(year) <= 366 * (year - 1970),
    decreases year - 1970,
{
    if year > 1970 {
        lemma_days_of_years_bounds(year - 1);
    }
}

proof fn lemma_days_of_months_bounds(year: int, month: int)
    ensures
        month <= 1 ==> spec_days_of_months(year, month) == 0,
        month > 1 ==> 0 <= spec_days_of_months(year, month) <= 31 * (month - 1),
    decreases month,
{
    if month > 1 {
        lemma_days_of_months_bounds(year, month - 1);
    }
}

/// One reading of the clock in every format, relative time taken from the
/// given timer.
pub fn get_current_time(timer: &ProgramTimer) -> TimeInfo {
    let nanos = now_unix_nanos();
    TimeInfo {
        unix: (nanos / 1000000000) as u64,
        unix_millis: nanos / 1000000,
        system_time: TimeUtils::system_time_string(),
        local_time: TimeUtils::local_time_string(),
        iso8601: TimeUtils::iso8601_time_string(),
        relative: timer.uptime_millis(),
    }
}

/// The current time in one chosen format.
pub fn get_time(format: TimeFormat, timer: &ProgramTimer) -> String {
    match format {
        TimeFormat::Unix => {
            let info = get_current_time(timer);
            crate::text::u128_to_dec(info.unix as u128)
        },
        TimeFormat::UnixMillis => {
            let info = get_current_time(timer);
            crate::text::u128_to_dec(info.unix_millis)
        },
        TimeFormat::SystemTime => get_current_time(timer).system_time,
        TimeFormat::LocalTime => get_current_time(timer).local_time,
        TimeFormat::Iso8601 => get_current_time(timer).iso8601,
        TimeFormat::Relative => {
            let info = get_current_time(timer);
            crate::text::u128_to_dec(info.relative)
        },
    }
}

} // verus!
