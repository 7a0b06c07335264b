//! Proleptic-Gregorian calendar arithmetic: the mapping between seconds
//! counted from the first day of year one and civil date/time fields.
//!
//! The supported calendar range is years one through 9999, which covers
//! every timestamp the resolver can meet.

use vstd::prelude::*;

verus! {

/// Whether year `y` is a leap year.
pub open spec fn is_leap_year(y: int) -> bool {
    y % 4 == 0 && (y % 100 != 0 || y % 400 == 0)
}

/// The number of days of year `y`.
pub open spec fn days_in_year(y: int) -> int {
    if is_leap_year(y) {
        366
    } else {
        365
    }
}

/// The number of days of month `m` of year `y`.
pub open spec fn days_in_month(y: int, m: int) -> int {
    if m == 2 {
        if is_leap_year(y) {
            29
        } else {
            28
        }
    } else if m == 4 || m == 6 || m == 9 || m == 11 {
        30
    } else {
        31
    }
}

/// The number of days strictly before year `y`, counted from the first
/// day of year one.
pub open spec fn days_before_year(y: int) -> int
    decreases y,
{
    if y <= 1 {
        0
    } else {
        days_before_year(y - 1) + days_in_year(y - 1)
    }
}

/// The number of days of year `y` strictly before month `m`.
pub open spec fn days_before_month(y: int, m: int) -> int
    decreases m,
{
    if m <= 1 {
        0
    } else {
        days_before_month(y, m - 1) + days_in_month(y, m - 1)
    }
}

/// The day number of the civil date `y-m-d`, day zero being the first
/// day of year one.
pub open spec fn day_index(y: int, m: int, d: int) -> int {
    days_before_year(y) + days_before_month(y, m) + d - 1
}

/// The second number of the civil instant, second zero being midnight
/// opening year one.
pub open spec fn civil_secs(y: int, m: int, d: int, h: int, mi: int, s: int) -> int {
    day_index(y, m, d) * 86400 + h * 3600 + mi * 60 + s
}

/// Whether the fields form a valid civil date and time of day in the
/// supported year range.
pub open spec fn valid_civil(y: int, m: int, d: int, h: int, mi: int, s: int) -> bool {
    &&& 1 <= y <= 9999
    &&& 1 <= m <= 12
    &&& 1 <= d <= days_in_month(y, m)
    &&& 0 <= h < 24
    &&& 0 <= mi < 60
    &&& 0 <= s < 60
}

/// The months of a year hold as many days as the year.
pub proof fn lemma_year_of_months(y: int)
    ensures
        days_before_month(y, 13) == days_in_year(y),
{
    reveal_with_fuel(days_before_month, 13);
}

/// The day count before a year grows between 365 and 366 days per year.
pub proof fn lemma_days_before_year_bounds(y: int)
    requires
        y >= 1,
    ensures
        365 * (y - 1) <= days_before_year(y) <= 366 * (y - 1),
    decreases y,
{
    if y > 1 {
        lemma_days_before_year_bounds(y - 1);
    }
}

/// Whether year `y` is a leap year, as executable code.
pub fn leap_year(y: u64) -> (r: bool)
    ensures
        r == is_leap_year(y as int),
{
    y % 4 == 0 && (y % 100 != 0 || y % 400 == 0)
}

/// The number of days of year `y`, as executable code.
pub fn year_days(y: u64) -> (r: u64)
    ensures
        r == days_in_year(y as int),
{
    if leap_year(y) {
        366
    } else {
        365
    }
}

/// The number of days of month `m` of year `y`, as executable code.
pub fn month_days(y: u64, m: u64) -> (r: u64)
    ensures
        r == days_in_month(y as int, m as int),
{
    if m == 2 {
        if leap_year(y) {
            29
        } else {
            28
        }
    } else if m == 4 || m == 6 || m == 9 || m == 11 {
        30
    } else {
        31
    }
}

/// The number of days strictly before year `y`, as executable code.
pub fn days_before_year_x(y: u64) -> (r: u64)
    requires
        1 <= y <= 10000,
    ensures
        r == days_before_year(y as int),
{
    let mut acc: u64 = 0;
    let mut yy: u64 = 1;
    while yy < y
        invariant
            1 <= yy <= y <= 10000,
            acc == days_before_year(yy as int),
        decreases y - yy,
    {
        proof {
            lemma_days_before_year_bounds(yy as int);
        }
        acc = acc + year_days(yy);
        yy = yy + 1;
    }
    acc
}

/// The number of days of year `y` strictly before month `m`, as
/// executable code.
pub fn days_before_month_x(y: u64, m: u64) -> (r: u64)
    requires
        1 <= m <= 13,
    ensures
        r == days_before_month(y as int, m as int),
{
    let mut acc: u64 = 0;
    let mut mm: u64 = 1;
    while mm < m
        invariant
            1 <= mm <= m <= 13,
            acc == days_before_month(y as int, mm as int),
            acc <= 366 * mm,
        decreases m - mm,
    {
        acc = acc + month_days(y, mm);
        mm = mm + 1;
    }
    acc
}

/// The civil date whose day number is `day`.
pub fn civil_from_day(day: u64) -> (r: (u64, u64, u64))
    requires
        day < days_before_year(10000),
    ensures
        1 <= r.0 <= 9999,
        1 <= r.1 <= 12,
        1 <= r.2 <= days_in_month(r.0 as int, r.1 as int),
        day_index(r.0 as int, r.1 as int, r.2 as int) == day,
{
    let mut y: u64 = 1;
    let mut rem: u64 = day;
    proof {
        lemma_days_before_year_bounds(10000);
    }
    while rem >= year_days(y)
        invariant
            1 <= y <= 9999,
            days_before_year(y as int) + rem == day,
            day < days_before_year(10000),
        decreases rem,
    {
        rem = rem - year_days(y);
        y = y + 1;
        proof {
            if y == 10000 {
                assert(days_before_year(10000) <= day);
            }
        }
    }
    let mut m: u64 = 1;
    proof {
        lemma_year_of_months(y as int);
    }
    while rem >= month_days(y, m)
        invariant
            1 <= m <= 12,
            1 <= y <= 9999,
            days_before_year(y as int) + days_before_month(y as int, m as int) + rem == day,
            rem < days_in_year(y as int) - days_before_month(y as int, m as int),
            days_before_month(y as int, 13) == days_in_year(y as int),
        decreases rem,
    {
        proof {
            if m == 12 {
                reveal_with_fuel(days_before_month, 13);
                assert(days_before_month(y as int, 13) == days_before_month(y as int, 12)
                    + days_in_month(y as int, 12));
            }
        }
        rem = rem - month_days(y, m);
        m = m + 1;
        proof {
            if m == 13 {
                assert(rem < days_in_year(y as int) - days_before_month(y as int, 13));
            }
        }
    }
    (y, m, rem + 1)
}

/// The civil fields of second number `secs`.
pub fn civil_from_secs(secs: u64) -> (r: (u64, u64, u64, u64, u64, u64))
    requires
        secs < days_before_year(10000) * 86400,
    ensures
        valid_civil(r.0 as int, r.1 as int, r.2 as int, r.3 as int, r.4 as int, r.5 as int),
        civil_secs(r.0 as int, r.1 as int, r.2 as int, r.3 as int, r.4 as int, r.5 as int)
            == secs,
{
    let day: u64 = secs / 86400;
    let sod: u64 = secs % 86400;
    proof {
        lemma_days_before_year_bounds(10000);
        assert(day < days_before_year(10000)) by (nonlinear_arith)
            requires
                secs < days_before_year(10000) * 86400,
                day == secs / 86400,
                days_before_year(10000) >= 0,
        ;
    }
    let (y, m, d) = civil_from_day(day);
    let h: u64 = sod / 3600;
    let mi: u64 = (sod % 3600) / 60;
    let s: u64 = sod % 60;
    proof {
        assert(sod == h * 3600 + mi * 60 + s) by (nonlinear_arith)
            requires
                sod < 86400,
                h == sod / 3600,
                mi == (sod % 3600) / 60,
                s == sod % 60,
        ;
        assert(h < 24 && mi < 60 && s < 60);
        assert(day * 86400 + sod == secs) by (nonlinear_arith)
            requires
                day == secs / 86400,
                sod == secs % 86400,
        ;
    }
    (y, m, d, h, mi, s)
}

/// The second number of a valid civil instant, as executable code.
pub fn civil_to_secs_x(y: u64, m: u64, d: u64, h: u64, mi: u64, s: u64) -> (r: u64)
    requires
        valid_civil(y as int, m as int, d as int, h as int, mi as int, s as int),
    ensures
        r == civil_secs(y as int, m as int, d as int, h as int, mi as int, s as int),
        r < days_before_year(10000) * 86400,
{
    proof {
        lemma_days_before_year_bounds(y as int);
        lemma_days_before_year_bounds(10000);
        lemma_year_of_months(y as int);
        lemma_days_before_month_bounds(y as int, m as int);
    }
    let day: u64 = days_before_year_x(y) + days_before_month_x(y, m) + d - 1;
    proof {
        assert(days_before_year((y + 1) as int) == days_before_year(y as int) + days_in_year(
            y as int,
        ));
        lemma_days_before_year_monotone((y + 1) as int, 10000);
        assert(day < days_before_year(10000));
        assert(day * 86400 + 86400 <= days_before_year(10000) * 86400) by (nonlinear_arith)
            requires
                day < days_before_year(10000),
        ;
    }
    day * 86400 + h * 3600 + mi * 60 + s
}

/// Days before a month are non-negative.
pub proof fn lemma_days_before_month_nonneg(y: int, m: int)
    requires
        m >= 1,
    ensures
        days_before_month(y, m) >= 0,
    decreases m,
{
    if m > 1 {
        lemma_days_before_month_nonneg(y, m - 1);
    }
}

/// Days before a month never exceed the days of the year.
pub proof fn lemma_days_before_month_bounds(y: int, m: int)
    requires
        1 <= m <= 13,
    ensures
        0 <= days_before_month(y, m) <= days_before_month(y, 13),
        m < 13 ==> days_before_month(y, m) + days_in_month(y, m) <= days_before_month(y, 13),
    decreases 13 - m,
{
    lemma_days_before_month_nonneg(y, m);
    if m < 13 {
        lemma_days_before_month_bounds(y, m + 1);
        assert(days_before_month(y, m + 1) == days_before_month(y, m) + days_in_month(y, m));
    }
}

/// The day count before a year grows with the year.
pub proof fn lemma_days_before_year_monotone(a: int, b: int)
    requires
        a <= b,
    ensures
        days_before_year(a) <= days_before_year(b),
    decreases b - a,
{
    if a < b {
        lemma_days_before_year_monotone(a, b - 1);
        if b > 1 {
            assert(days_before_year(b) == days_before_year(b - 1) + days_in_year(b - 1));
        }
    }
}

} // verus!
