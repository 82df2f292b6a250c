//! The calendar and the clock, day by day and digit by digit.

use crate::clock;
use crate::clock::{Date, TimeOfDay};
use vstd::prelude::*;

verus! {

/// A date is real exactly if its month has that many days: 31 in seven months, 30 in
/// four, and 28 in February, or 29 in a leap year, within the years at hand.
pub proof fn months_have_their_days(d: Date)
    ensures
        clock::real_date(d) <==> {
            &&& -262143 <= d.year <= 262142
            &&& 1 <= d.day
            &&& {
                ||| (d.month == 1 || d.month == 3 || d.month == 5 || d.month == 7 || d.month == 8
                    || d.month == 10 || d.month == 12) && d.day <= 31
                ||| (d.month == 4 || d.month == 6 || d.month == 9 || d.month == 11) && d.day <= 30
                ||| d.month == 2 && d.day <= 28
                ||| d.month == 2 && d.day == 29 && d.year % 4 == 0 && (d.year % 100 != 0 || d.year
                    % 400 == 0)
            }
        },
{
}

/// The days of the week follow one another from day to day, through months and
/// years, and come round after seven.
pub proof fn days_of_the_week_follow(d: Date, e: Date)
    requires
        clock::real_date(d),
        clock::real_date(e),
        ({
            ||| e.year == d.year && e.month == d.month && e.day == d.day + 1
            ||| e.year == d.year && e.month == d.month + 1 && e.day == 1 && !clock::real_date(
                Date { day: (d.day + 1) as u32, ..d },
            )
            ||| e.year == d.year + 1 && d.month == 12 && d.day == 31 && e.month == 1 && e.day == 1
        }),
    ensures
        0 <= clock::weekday(d) <= 6,
        clock::weekday(e) == if clock::weekday(d) == 6 {
            0
        } else {
            clock::weekday(d) + 1
        },
{
    let y = d.year - 1;
    if e.year == d.year + 1 {
        assert((y + 1) / 4 == y / 4 + (if (y + 1) % 4 == 0 {
            1int
        } else {
            0
        }));
        assert((y + 1) / 100 == y / 100 + (if (y + 1) % 100 == 0 {
            1int
        } else {
            0
        }));
        assert((y + 1) / 400 == y / 400 + (if (y + 1) % 400 == 0 {
            1int
        } else {
            0
        }));
    }
    assert(clock::day_number(e) == clock::day_number(d) + 1);
}

/// Days are counted from Monday: the first day of the year 2024 was one.
pub proof fn the_week_begins_on_monday()
    ensures
        clock::weekday(Date { year: 2024, month: 1, day: 1 }) == 0,
        clock::weekday(Date { year: 2024, month: 2, day: 29 }) == 3,
{
}

/// A time of day is of a clock exactly if its hour is below 24 and its minute below
/// 60; it is written with two digits for each.
pub proof fn times_are_written_in_digits(t: TimeOfDay)
    ensures
        clock::real_time(t) <==> t.hour < 24 && t.minute < 60,
        clock::real_time(t) ==> {
            let s = clock::hm_text(t);
            &&& s.len() == 5
            &&& '0' <= s[0] <= '9' && '0' <= s[1] <= '9' && s[2] == ':'
            &&& '0' <= s[3] <= '9' && '0' <= s[4] <= '9'
            &&& 10 * (s[0] as u32 - 48) + (s[1] as u32 - 48) == t.hour
            &&& 10 * (s[3] as u32 - 48) + (s[4] as u32 - 48) == t.minute
        },
{
}

proof fn lemma_digit(v: int)
    requires
        0 <= v <= 9,
    ensures
        '0' <= clock::digit(v) <= '9',
        clock::digit(v) as u32 - 48 == v,
{
}

proof fn lemma_places(v: int)
    requires
        0 <= v <= 9999,
    ensures
        0 <= v / 1000 <= 9,
        1000 * (v / 1000) + 100 * (v / 100 % 10) + 10 * (v / 10 % 10) + v % 10 == v,
{
    assert(v / 100 == 10 * (v / 1000) + v / 100 % 10);
    assert(v / 10 == 10 * (v / 100) + v / 10 % 10);
    assert(v == 10 * (v / 10) + v % 10);
}

proof fn lemma_four_digits(v: int)
    requires
        0 <= v <= 9999,
    ensures
        ({
            let s = clock::four_digits(v);
            &&& s.len() == 4
            &&& '0' <= s[0] <= '9' && '0' <= s[1] <= '9' && '0' <= s[2] <= '9' && '0' <= s[3] <= '9'
            &&& 1000 * (s[0] as u32 - 48) + 100 * (s[1] as u32 - 48) + 10 * (s[2] as u32 - 48) + (
            s[3] as u32 - 48) == v
        }),
{
    lemma_places(v);
    lemma_digit(v / 1000);
    lemma_digit(v / 100 % 10);
    lemma_digit(v / 10 % 10);
    lemma_digit(v % 10);
}

proof fn lemma_month_and_day(d: Date)
    requires
        clock::real_date(d),
    ensures
        ({
            let y = clock::year_text(d.year as int);
            let s = clock::date_text(d);
            let n = y.len() as int;
            &&& s.len() == n + 6
            &&& s.take(n) == y
            &&& s[n] == '-' && s[n + 3] == '-'
            &&& '0' <= s[n + 1] <= '9' && '0' <= s[n + 2] <= '9'
            &&& '0' <= s[n + 4] <= '9' && '0' <= s[n + 5] <= '9'
            &&& 10 * (s[n + 1] as u32 - 48) + (s[n + 2] as u32 - 48) == d.month
            &&& 10 * (s[n + 4] as u32 - 48) + (s[n + 5] as u32 - 48) == d.day
        }),
{
    let y = clock::year_text(d.year as int);
    let s = clock::date_text(d);
    months_have_their_days(d);
    assert(d.month <= 12 && d.day <= 31);
    lemma_digit(d.month as int / 10);
    lemma_digit(d.month as int % 10);
    lemma_digit(d.day as int / 10);
    lemma_digit(d.day as int % 10);
    assert(s.take(y.len() as int) =~= y);
}

/// A date of the years 0 to 9999 is written with four digits for the year, two for
/// the month and two for the day, with hyphens between.
pub proof fn dates_are_written_in_digits(d: Date)
    requires
        clock::real_date(d),
        0 <= d.year <= 9999,
    ensures
        ({
            let s = clock::date_text(d);
            let n = |i: int| s[i] as u32 - 48;
            &&& s.len() == 10
            &&& '0' <= s[0] <= '9' && '0' <= s[1] <= '9' && '0' <= s[2] <= '9' && '0' <= s[3] <= '9'
            &&& s[4] == '-'
            &&& '0' <= s[5] <= '9' && '0' <= s[6] <= '9'
            &&& s[7] == '-'
            &&& '0' <= s[8] <= '9' && '0' <= s[9] <= '9'
            &&& 1000 * n(0) + 100 * n(1) + 10 * n(2) + n(3) == d.year
            &&& 10 * n(5) + n(6) == d.month
            &&& 10 * n(8) + n(9) == d.day
        }),
{
    let s = clock::date_text(d);
    let y = clock::year_text(d.year as int);
    lemma_month_and_day(d);
    assert(y == clock::four_digits(d.year as int));
    lemma_four_digits(d.year as int);
    assert(s[0] == s.take(4)[0] && s[1] == s.take(4)[1] && s[2] == s.take(4)[2] && s[3] == s.take(
        4,
    )[3]);
}

/// A year before 0 or after 9999 has its sign in front, and as many digits as it
/// needs, but four at least.
pub proof fn far_years_are_written_with_a_sign(year: int)
    requires
        -262143 <= year <= 262142,
        year < 0 || year > 9999,
    ensures
        ({
            let s = clock::year_text(year);
            let v = if year < 0 {
                -year
            } else {
                year
            };
            let n = |i: int| s[i] as u32 - 48;
            &&& s[0] == if year < 0 {
                '-'
            } else {
                '+'
            }
            &&& forall|i: int| 1 <= i < s.len() ==> '0' <= #[trigger] s[i] && s[i] <= '9'
            &&& v < 10_000 ==> s.len() == 5 && 1000 * n(1) + 100 * n(2) + 10 * n(3) + n(4) == v
            &&& 10_000 <= v < 100_000 ==> s.len() == 6 && 10_000 * n(1) + 1000 * n(2) + 100 * n(3)
                + 10 * n(4) + n(5) == v
            &&& 100_000 <= v ==> s.len() == 7 && 100_000 * n(1) + 10_000 * n(2) + 1000 * n(3) + 100
                * n(4) + 10 * n(5) + n(6) == v
        }),
{
    let s = clock::year_text(year);
    let v = if year < 0 {
        -year
    } else {
        year
    };
    let low = clock::four_digits(v % 10_000);
    lemma_four_digits(v % 10_000);
    assert(v == 10_000 * (v / 10_000) + v % 10_000);
    if v >= 100_000 {
        assert(v / 10_000 == 10 * (v / 100_000) + v / 10_000 % 10);
        lemma_digit(v / 100_000);
        lemma_digit(v / 10_000 % 10);
        assert(s[1] == clock::digit(v / 100_000) && s[2] == clock::digit(v / 10_000 % 10));
        assert(s[3] == low[0] && s[4] == low[1] && s[5] == low[2] && s[6] == low[3]);
        assert(s.len() == 7);
    } else if v >= 10_000 {
        lemma_digit(v / 10_000);
        assert(s[1] == clock::digit(v / 10_000));
        assert(s[2] == low[0] && s[3] == low[1] && s[4] == low[2] && s[5] == low[3]);
        assert(s.len() == 6);
    } else {
        assert(s[1] == low[0] && s[2] == low[1] && s[3] == low[2] && s[4] == low[3]);
        assert(s.len() == 5);
    }
}

/// A date is written as its year, and then the month and the day with two digits
/// each, with hyphens before them.
pub proof fn a_date_goes_on_from_its_year(d: Date)
    requires
        clock::real_date(d),
    ensures
        ({
            let y = clock::year_text(d.year as int);
            let s = clock::date_text(d);
            let n = y.len() as int;
            &&& s.len() == n + 6
            &&& s.take(n) == y
            &&& s[n] == '-' && s[n + 3] == '-'
            &&& 10 * (s[n + 1] as u32 - 48) + (s[n + 2] as u32 - 48) == d.month
            &&& 10 * (s[n + 4] as u32 - 48) + (s[n + 5] as u32 - 48) == d.day
        }),
{
    lemma_month_and_day(d);
}

/// A moment is told as its own text where it has one, and else as the start of 1970.
pub proof fn a_moment_is_told_as_it_is(secs: i64, t: Seq<char>)
    ensures
        clock::rfc3339(secs) == Some(t) ==> clock::moment_text(secs) == t,
        clock::rfc3339(secs) is None && clock::rfc3339(0) == Some(t) ==> clock::moment_text(secs)
            == t,
{
}

} // verus!
