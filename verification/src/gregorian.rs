//! Proleptic Gregorian calendar arithmetic on the shared day-number axis.
//!
//! Day numbers count days from 1937-01-01, day 0.  The functions here cover
//! the years 1937 through 2080, which encloses every day the Umm al-Qura
//! table can produce; the public entry points of the crate restrict callers
//! to a narrower window.

use vstd::prelude::*;

verus! {

/// First Gregorian year on the day-number axis; day 0 is its January 1st.
pub const G_FIRST_YEAR: usize = 1937;

/// First Gregorian year past the covered axis.
pub const G_END_YEAR: usize = 2081;

/// Whether Gregorian year `y` is a leap year.
pub open spec fn is_leap(y: int) -> bool {
    y % 4 == 0 && (y % 100 != 0 || y % 400 == 0)
}

/// Number of days in Gregorian year `y`.
pub open spec fn days_in_year(y: int) -> int {
    if is_leap(y) {
        366
    } else {
        365
    }
}

/// Length in days of month `m` of Gregorian year `y`.
pub open spec fn g_month_length(y: int, m: int) -> int {
    if m == 2 {
        if is_leap(y) {
            29
        } else {
            28
        }
    } else if m == 4 || m == 6 || m == 9 || m == 11 {
        30
    } else {
        31
    }
}

/// Number of days in the years 1937 up to, not including, `y`.
pub open spec fn days_before_year(y: int) -> int
    decreases y - 1937,
{
    if y <= 1937 {
        0
    } else {
        days_before_year(y - 1) + days_in_year(y - 1)
    }
}

/// Number of days in the months of year `y` before month `m`.
pub open spec fn days_before_month(y: int, m: int) -> int
    decreases m,
{
    if m <= 1 {
        0
    } else {
        days_before_month(y, m - 1) + g_month_length(y, m - 1)
    }
}

/// Day number of the Gregorian date (`y`, `m`, `d`), counted from
/// 1937-01-01 as day 0.
pub open spec fn g_day_number(y: int, m: int, d: int) -> int {
    days_before_year(y) + days_before_month(y, m) + d - 1
}

/// Whether (`y`, `m`, `d`) is a Gregorian calendar date on the covered axis.
pub open spec fn g_valid(y: int, m: int, d: int) -> bool {
    &&& 1937 <= y <= 2080
    &&& 1 <= m <= 12
    &&& 1 <= d <= g_month_length(y, m)
}

/// Year lengths are 365 or 366 days, so the days before a year grow
/// strictly with the year, within these per-year bounds.
pub proof fn lemma_days_before_year_monotone(a: int, b: int)
    requires
        1937 <= a <= b,
    ensures
        days_before_year(a) + 365 * (b - a) <= days_before_year(b),
        days_before_year(b) <= days_before_year(a) + 366 * (b - a),
    decreases b - a,
{
    if a < b {
        lemma_days_before_year_monotone(a, b - 1);
    }
}

/// Month lengths are 28 to 31 days, so the days before a month grow
/// strictly with the month, within these per-month bounds.
pub proof fn lemma_days_before_month_monotone(y: int, a: int, b: int)
    requires
        1 <= a <= b,
    ensures
        days_before_month(y, a) + 28 * (b - a) <= days_before_month(y, b),
        days_before_month(y, b) <= days_before_month(y, a) + 31 * (b - a),
    decreases b - a,
{
    if a < b {
        lemma_days_before_month_monotone(y, a, b - 1);
    }
}

/// The twelve months of a year account for exactly that year's days.
pub proof fn lemma_months_fill_year(y: int)
    ensures
        days_before_month(y, 13) == days_in_year(y),
{
    reveal_with_fuel(days_before_month, 13);
}

/// A valid date's day number lies in its year's day-number interval.
pub proof fn lemma_day_number_in_year(y: int, m: int, d: int)
    requires
        g_valid(y, m, d),
    ensures
        days_before_year(y) <= g_day_number(y, m, d),
        g_day_number(y, m, d) < days_before_year(y + 1),
{
    lemma_days_before_month_monotone(y, 1, m);
    lemma_days_before_month_monotone(y, m + 1, 13);
    lemma_months_fill_year(y);
    assert(days_before_month(y, m + 1) == days_before_month(y, m) + g_month_length(y, m));
    assert(days_before_year(y + 1) == days_before_year(y) + days_in_year(y));
}

/// A valid date's day number lies in its month's day-number interval
/// within the year.
pub proof fn lemma_day_number_in_month(y: int, m: int, d: int)
    requires
        g_valid(y, m, d),
    ensures
        days_before_month(y, m) <= g_day_number(y, m, d) - days_before_year(y),
        g_day_number(y, m, d) - days_before_year(y) < days_before_month(y, m + 1),
{
    assert(days_before_month(y, m + 1) == days_before_month(y, m) + g_month_length(y, m));
}

/// Two valid Gregorian dates with the same day number are the same date:
/// the day-number axis carries each calendar day exactly once.
pub proof fn lemma_g_day_number_injective(y1: int, m1: int, d1: int, y2: int, m2: int, d2: int)
    requires
        g_valid(y1, m1, d1),
        g_valid(y2, m2, d2),
        g_day_number(y1, m1, d1) == g_day_number(y2, m2, d2),
    ensures
        y1 == y2,
        m1 == m2,
        d1 == d2,
{
    lemma_day_number_in_year(y1, m1, d1);
    lemma_day_number_in_year(y2, m2, d2);
    if y1 < y2 {
        lemma_days_before_year_monotone(y1 + 1, y2);
    }
    if y2 < y1 {
        lemma_days_before_year_monotone(y2 + 1, y1);
    }
    lemma_day_number_in_month(y1, m1, d1);
    lemma_day_number_in_month(y2, m2, d2);
    if m1 < m2 {
        lemma_days_before_month_monotone(y1, m1 + 1, m2);
    }
    if m2 < m1 {
        lemma_days_before_month_monotone(y1, m2 + 1, m1);
    }
}

/// An earlier valid Gregorian date has a smaller day number: the axis
/// orders dates as the calendar does.
pub proof fn lemma_g_day_number_monotone(y1: int, m1: int, d1: int, y2: int, m2: int, d2: int)
    requires
        g_valid(y1, m1, d1),
        g_valid(y2, m2, d2),
        y1 < y2 || (y1 == y2 && m1 < m2) || (y1 == y2 && m1 == m2 && d1 < d2),
    ensures
        g_day_number(y1, m1, d1) < g_day_number(y2, m2, d2),
{
    lemma_day_number_in_year(y1, m1, d1);
    lemma_day_number_in_year(y2, m2, d2);
    if y1 < y2 {
        lemma_days_before_year_monotone(y1 + 1, y2);
    } else {
        lemma_day_number_in_month(y1, m1, d1);
        lemma_day_number_in_month(y2, m2, d2);
        if m1 < m2 {
            lemma_days_before_month_monotone(y1, m1 + 1, m2);
        }
    }
}

/// Whether Gregorian year `y` is a leap year.
pub fn is_leap_x(y: usize) -> (r: bool)
    ensures
        r == is_leap(y as int),
{
    y % 4 == 0 && (y % 100 != 0 || y % 400 == 0)
}

/// Length in days of month `m` of Gregorian year `y`.
pub fn g_month_length_x(y: usize, m: usize) -> (len: usize)
    requires
        1 <= m <= 12,
    ensures
        len == g_month_length(y as int, m as int),
        28 <= len <= 31,
{
    if m == 2 {
        if is_leap_x(y) {
            29
        } else {
            28
        }
    } else if m == 4 || m == 6 || m == 9 || m == 11 {
        30
    } else {
        31
    }
}

/// Day number of the Gregorian date (`y`, `m`, `d`).
pub fn g_day_number_x(y: usize, m: usize, d: usize) -> (n: usize)
    requires
        g_valid(y as int, m as int, d as int),
    ensures
        n == g_day_number(y as int, m as int, d as int),
        n < days_before_year(2081),
{
    proof {
        lemma_day_number_in_year(y as int, m as int, d as int);
        lemma_days_before_year_monotone((y as int) + 1, 2081);
    }
    let mut yy: usize = 1937;
    let mut acc: usize = 0;
    while yy < y
        invariant
            1937 <= yy <= y,
            y <= 2080,
            acc == days_before_year(yy as int),
            acc <= 366 * (yy - 1937),
        decreases y - yy,
    {
        acc = acc + if is_leap_x(yy) {
            366
        } else {
            365
        };
        yy = yy + 1;
    }
    let mut mm: usize = 1;
    let mut macc: usize = 0;
    while mm < m
        invariant
            1 <= mm <= m,
            m <= 12,
            macc == days_before_month(y as int, mm as int),
            macc <= 31 * (mm - 1),
        decreases m - mm,
    {
        macc = macc + g_month_length_x(y, mm);
        mm = mm + 1;
    }
    acc + macc + d - 1
}

/// Recovers the Gregorian date of day number `n`: the unique valid date
/// whose day number is `n`.
pub fn g_date_of_day(n: usize) -> (r: (usize, usize, usize))
    requires
        n < days_before_year(2081),
    ensures
        g_valid(r.0 as int, r.1 as int, r.2 as int),
        g_day_number(r.0 as int, r.1 as int, r.2 as int) == n,
{
    let mut y: usize = 1937;
    let mut rem: usize = n;
    loop
        invariant
            1937 <= y <= 2080,
            days_before_year(y as int) + rem == n,
            n < days_before_year(2081),
        ensures
            1937 <= y <= 2080,
            days_before_year(y as int) + rem == n,
            rem < days_in_year(y as int),
        decreases rem,
    {
        let len: usize = if is_leap_x(y) {
            366
        } else {
            365
        };
        if rem < len {
            break ;
        }
        rem = rem - len;
        y = y + 1;
    }
    let mut m: usize = 1;
    proof {
        lemma_months_fill_year(y as int);
    }
    while rem >= g_month_length_x(y, m)
        invariant
            1 <= m <= 12,
            1937 <= y <= 2080,
            days_before_month(y as int, m as int) + (rem as int) == n - days_before_year(y as int),
            n - days_before_year(y as int) < days_in_year(y as int),
            days_before_month(y as int, 13) == days_in_year(y as int),
        decreases 12 - m,
    {
        proof {
            if (m as int) + 1 <= 13 {
                lemma_days_before_month_monotone(y as int, (m as int) + 1, 13);
            }
        }
        rem = rem - g_month_length_x(y, m);
        m = m + 1;
    }
    (y, m, rem + 1)
}

} // verus!
