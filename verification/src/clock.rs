//! Dates, times of day and the wall clock.

use chrono::{Datelike, Timelike};
use vstd::prelude::*;

verus! {

/// Seconds since the start of 1970, from `chrono::Utc::now`. Nothing can be
/// promised of what a clock shows.
#[verifier::external_body]
pub(crate) fn now_timestamp() -> i64 {
    chrono::Utc::now().timestamp()
}

/// The text of the moment `secs` seconds after the start of 1970, if there is
/// such a moment in the calendar that `chrono` knows.
pub uninterp spec fn rfc3339(secs: i64) -> Option<Seq<char>>;

/// The RFC 3339 text of a moment, from `chrono::DateTime::from_timestamp` and
/// `to_rfc3339`. Every moment up to the end of the year 9999 has one.
#[verifier::external_body]
pub(crate) fn rfc3339_text(secs: i64) -> (r: Option<String>)
    ensures
        match r {
            Some(t) => rfc3339(secs) == Some(t@),
            None => rfc3339(secs) is None,
        },
        0 <= secs <= 253_402_300_799 ==> r is Some,
{
    Some(chrono::DateTime::<chrono::Utc>::from_timestamp(secs, 0)?.to_rfc3339())
}

/// The text of a moment; of the start of 1970 where there is no such moment.
pub open spec fn moment_text(secs: i64) -> Seq<char> {
    match rfc3339(secs) {
        Some(t) => t,
        None => rfc3339(0)->0,
    }
}

/// The text of a moment; of the start of 1970 where there is no such moment.
pub fn describe_moment(secs: i64) -> (r: String)
    ensures
        r@ == moment_text(secs),
{
    match rfc3339_text(secs) {
        Some(t) => t,
        None => match rfc3339_text(0) {
            Some(t) => t,
            None => String::new(),
        },
    }
}

/// A day of the calendar.
#[derive(Clone, Copy, Debug, PartialEq, Eq, Structural)]
pub struct Date {
    pub year: i32,
    pub month: u32,
    pub day: u32,
}

pub open spec fn leap_year(year: int) -> bool {
    year % 4 == 0 && (year % 100 != 0 || year % 400 == 0)
}

/// The number of days before a month in its year.
pub open spec fn days_before_month(year: int, month: int) -> int {
    let leap: int = if leap_year(year) {
        1
    } else {
        0
    };
    if month == 1 {
        0
    } else if month == 2 {
        31
    } else if month == 3 {
        59 + leap
    } else if month == 4 {
        90 + leap
    } else if month == 5 {
        120 + leap
    } else if month == 6 {
        151 + leap
    } else if month == 7 {
        181 + leap
    } else if month == 8 {
        212 + leap
    } else if month == 9 {
        243 + leap
    } else if month == 10 {
        273 + leap
    } else if month == 11 {
        304 + leap
    } else if month == 12 {
        334 + leap
    } else {
        365 + leap
    }
}

/// The date is a day of the Gregorian calendar within the years that `chrono`
/// holds.
pub open spec fn real_date(d: Date) -> bool {
    &&& -262143 <= d.year <= 262142
    &&& 1 <= d.month <= 12
    &&& 1 <= d.day <= days_before_month(d.year as int, d.month + 1) - days_before_month(
        d.year as int,
        d.month as int,
    )
}

/// Whether a date is a day of the calendar.
pub fn is_real_date(d: Date) -> (r: bool)
    ensures
        r == real_date(d),
{
    if d.year < -262143 || d.year > 262142 || d.month < 1 || d.month > 12 || d.day < 1 {
        return false;
    }
    // Leap years come round every 400 years, so a shift by a multiple of that
    // keeps them.
    let y: u32 = (d.year + 280_000) as u32;
    let leap = y % 4 == 0 && (y % 100 != 0 || y % 400 == 0);
    assert(leap == leap_year(d.year as int));
    let last: u32 = if d.month == 2 {
        if leap {
            29
        } else {
            28
        }
    } else if d.month == 4 || d.month == 6 || d.month == 9 || d.month == 11 {
        30
    } else {
        31
    };
    d.day <= last
}

/// The number of the day, counted so that the first day of the year 1, a
/// Monday, is day 1.
pub open spec fn day_number(d: Date) -> int {
    let y = d.year - 1;
    365 * y + y / 4 - y / 100 + y / 400 + days_before_month(d.year as int, d.month as int) + d.day
}

/// The day of the week, with Monday as 0 and Sunday as 6.
pub open spec fn weekday(d: Date) -> int {
    (day_number(d) - 1) % 7
}

/// The date that a text writes as year, month and day with hyphens between, as
/// `chrono` reads it.
pub uninterp spec fn ymd_value(s: Seq<char>) -> Option<Date>;

/// The date that a text writes, from `chrono::NaiveDate::parse_from_str` with
/// `%Y-%m-%d`; what it reads is a real date.
#[verifier::external_body]
pub(crate) fn parse_ymd(s: &str) -> (r: Option<Date>)
    ensures
        r == ymd_value(s@),
        r matches Some(d) ==> real_date(d),
{
    let d = chrono::NaiveDate::parse_from_str(s, "%Y-%m-%d").ok()?;
    Some(Date { year: d.year(), month: d.month(), day: d.day() })
}

/// The date that a text writes, as `chrono::NaiveDate` reads itself.
pub uninterp spec fn date_value(s: Seq<char>) -> Option<Date>;

/// The date that a text writes, from the `FromStr` of `chrono::NaiveDate`; what
/// it reads is a real date.
#[verifier::external_body]
pub(crate) fn parse_date(s: &str) -> (r: Option<Date>)
    ensures
        r == date_value(s@),
        r matches Some(d) ==> real_date(d),
{
    let d = s.parse::<chrono::NaiveDate>().ok()?;
    Some(Date { year: d.year(), month: d.month(), day: d.day() })
}

/// A number below ten thousand as four digits.
pub open spec fn four_digits(v: int) -> Seq<char> {
    seq![digit(v / 1000), digit(v / 100 % 10), digit(v / 10 % 10), digit(v % 10)]
}

/// A year in four digits; one before the year 0 or after 9999 has its sign in
/// front, and the digits that it needs.
pub open spec fn year_text(year: int) -> Seq<char> {
    if 0 <= year <= 9999 {
        four_digits(year)
    } else {
        let (sign, v) = if year < 0 {
            ('-', -year)
        } else {
            ('+', year)
        };
        seq![sign] + (if v >= 100_000 {
            seq![digit(v / 100_000), digit(v / 10_000 % 10)]
        } else if v >= 10_000 {
            seq![digit(v / 10_000)]
        } else {
            seq![]
        }) + four_digits(v % 10_000)
    }
}

/// A date as year, month and day with hyphens between, the last two in two
/// digits.
pub open spec fn date_text(d: Date) -> Seq<char> {
    year_text(d.year as int) + seq![
        '-',
        digit(d.month as int / 10),
        digit(d.month as int % 10),
        '-',
        digit(d.day as int / 10),
        digit(d.day as int % 10),
    ]
}

/// The text of a real date, from the `Display` of `chrono::NaiveDate`: the year,
/// the month in two digits and the day in two digits, with hyphens between.
#[verifier::external_body]
pub(crate) fn write_date(d: Date) -> (r: String)
    requires
        real_date(d),
    ensures
        r@ == date_text(d),
{
    chrono::NaiveDate::from_ymd_opt(d.year, d.month, d.day).unwrap().to_string()
}

/// The day of the week of a real date, from `chrono::NaiveDate::weekday` and
/// `num_days_from_monday`.
#[verifier::external_body]
pub(crate) fn weekday_of(d: Date) -> (r: u32)
    requires
        real_date(d),
    ensures
        r == weekday(d),
{
    chrono::NaiveDate::from_ymd_opt(d.year, d.month, d.day).unwrap().weekday().num_days_from_monday()
}

/// The day of the week of a date written `YYYY-MM-DD`, with Monday as 0. Text
/// that is no such date counts as a Monday.
pub fn weekday_for_date(date: &str) -> (r: u8)
    ensures
        r < 7,
        r == match ymd_value(date@) {
            Some(d) => weekday(d),
            None => 0,
        },
{
    match parse_ymd(date) {
        Some(d) => {
            let n = weekday_of(d);
            n as u8
        },
        None => 0,
    }
}

/// A time of day, to the minute.
#[derive(Clone, Copy, Debug, PartialEq, Eq, Structural)]
pub struct TimeOfDay {
    pub hour: u32,
    pub minute: u32,
}

/// The hour and the minute are those of a clock.
pub open spec fn real_time(t: TimeOfDay) -> bool {
    t.hour < 24 && t.minute < 60
}

/// The decimal digit of a value below ten.
pub open spec fn digit(v: int) -> char {
    (('0' as u32) + v) as char
}

/// A time of day as two digits, a colon and two digits.
pub open spec fn hm_text(t: TimeOfDay) -> Seq<char> {
    seq![
        digit(t.hour as int / 10),
        digit(t.hour as int % 10),
        ':',
        digit(t.minute as int / 10),
        digit(t.minute as int % 10),
    ]
}

/// The text of a time of day, from the `format` of `chrono::NaiveTime` with
/// `%H:%M`: both numbers as two digits.
#[verifier::external_body]
pub(crate) fn format_time(t: TimeOfDay) -> (r: String)
    requires
        real_time(t),
    ensures
        r@ == hm_text(t),
{
    chrono::NaiveTime::from_hms_opt(t.hour, t.minute, 0).unwrap().format("%H:%M").to_string()
}

/// The time of day that a text writes as hour and minute, as `chrono` reads it.
pub uninterp spec fn hm_value(s: Seq<char>) -> Option<TimeOfDay>;

/// The time of day that a text writes, from `chrono::NaiveTime::parse_from_str`
/// with `%H:%M`. What it reads is a real time; the two-digit form gives back the
/// time that it was made from.
#[verifier::external_body]
pub(crate) fn parse_hm(s: &str) -> (r: Option<TimeOfDay>)
    ensures
        r == hm_value(s@),
        r matches Some(t) ==> real_time(t),
        forall|t: TimeOfDay| real_time(t) && s@ == #[trigger] hm_text(t) ==> r == Some(t),
{
    let t = chrono::NaiveTime::parse_from_str(s, "%H:%M").ok()?;
    Some(TimeOfDay { hour: t.hour(), minute: t.minute() })
}

/// The time of day that a text writes as `HH:MM`, if it does.
pub fn parse_time(s: &str) -> (r: Option<TimeOfDay>)
    ensures
        r == hm_value(s@),
        r matches Some(t) ==> real_time(t),
        forall|t: TimeOfDay| real_time(t) && s@ == #[trigger] hm_text(t) ==> r == Some(t),
{
    parse_hm(s)
}

/// The names of time zones that `chrono-tz` knows.
pub uninterp spec fn known_zone(name: Seq<char>) -> bool;

/// Whether a time zone of that name exists, from the `FromStr` of
/// `chrono_tz::Tz`.
#[verifier::external_body]
pub(crate) fn is_known_zone(name: &str) -> (r: bool)
    ensures
        r == known_zone(name@),
{
    name.parse::<chrono_tz::Tz>().is_ok()
}

} // verus!
