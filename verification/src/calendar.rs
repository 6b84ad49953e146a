//! Days since the first of January 1970, and the dates that they are.

use vstd::prelude::*;

verus! {

/// Whether a year has a 29th of February.
pub open spec fn is_leap(y: int) -> bool {
    (y % 4 == 0 && y % 100 != 0) || y % 400 == 0
}

/// How many days a month has.
pub open spec fn days_in_month(y: int, m: int) -> int {
    if m == 2 {
        if is_leap(y) {
            29
        } else {
            28
        }
    } else if m == 4 || m == 6 || m == 9 || m == 11 {
        30
    } else {
        31
    }
}

/// How many days of a year come before a month.
pub open spec fn days_before_month(y: int, m: int) -> int
    decreases m,
{
    if m <= 1 {
        0
    } else {
        days_before_month(y, m - 1) + days_in_month(y, m - 1)
    }
}

/// How many days come before a year, counted from the first of January of the year 1.
pub open spec fn days_before_year(y: int) -> int {
    365 * (y - 1) + (y - 1) / 4 - (y - 1) / 100 + (y - 1) / 400
}

/// Whether there is such a date.
pub open spec fn is_date(y: int, m: int, d: int) -> bool {
    1 <= m <= 12 && 1 <= d <= days_in_month(y, m)
}

/// How many days a date comes after the first of January 1970.
pub open spec fn day_number(y: int, m: int, d: int) -> int {
    days_before_year(y) + days_before_month(y, m) + d - 1 - 719162
}

/// How many days of a year that starts with March come before its month `mp`, March being zero.
spec fn days_before_march_month(mp: int) -> int {
    (153 * mp + 2) / 5
}

proof fn lemma_months(y: int)
    ensures
        days_before_month(y, 1) == 0,
        days_before_month(y, 2) == 31,
        days_before_month(y, 3) == 59 + (if is_leap(y) { 1int } else { 0 }),
        forall|mp: int|
            0 <= mp < 10 ==> days_before_month(y, #[trigger] (mp + 3)) == days_before_month(y, 3)
                + days_before_march_month(mp),
        days_before_month(y, 13) == days_before_month(y, 3) + 306,
{
    reveal_with_fuel(days_before_month, 14);
}

/// The four centuries that a day falls into, counted from the first of March of the year 0.
fn era_of(z: i64) -> (era: i64)
    ensures
        0 <= z - era * 146097 < 146097,
{
    if z >= 0 {
        z / 146097
    } else {
        -((-(z + 1)) / 146097) - 1
    }
}

/// The year and the day of that year of a day of four centuries. The years start with March, so
/// that a leap day is the last of its year.
fn year_of_era(doe: i64) -> (r: (i64, i64))
    requires
        0 <= doe < 146097,
    ensures
        0 <= r.0 < 400,
        0 <= r.1 <= 365,
        doe == 365 * r.0 + r.0 as int / 4 - r.0 as int / 100 + r.1,
        r.1 == 365 ==> is_leap(r.0 + 1),
{
    // The century of the four, the four years of the century, and the year of the four.
    let c: i64 = if doe / 36524 < 4 {
        doe / 36524
    } else {
        3
    };
    let in_century: i64 = doe - 36524 * c;
    let q: i64 = in_century / 1461;
    let in_four: i64 = in_century - 1461 * q;
    let i: i64 = if in_four / 365 < 4 {
        in_four / 365
    } else {
        3
    };
    let doy: i64 = in_four - 365 * i;
    let yoe: i64 = 100 * c + 4 * q + i;
    proof {
        assert(0 <= c <= 3 && 0 <= q <= 24 && 0 <= i <= 3);
        assert(yoe as int / 4 == 25 * c + q);
        assert(yoe as int / 100 == c);
        if doy == 365 {
            assert(i == 3);
            assert((yoe + 1) % 4 == 0);
            if q == 24 {
                assert(c == 3);
            } else {
                assert((yoe + 1) % 100 != 0);
            }
        }
    }
    (yoe, doy)
}

/// The month, counted from March, and the day of that month, of a day of a year that starts with
/// March.
fn month_of_year(doy: i64) -> (r: (i64, i64))
    requires
        0 <= doy <= 365,
    ensures
        0 <= r.0 <= 11,
        doy == days_before_march_month(r.0 as int) + r.1 - 1,
        1 <= r.1,
        r.0 < 11 ==> doy < days_before_march_month(r.0 + 1),
{
    let mp: i64 = (5 * doy + 2) / 153;
    proof {
        lemma_march_month(doy as int, mp as int);
    }
    (mp, doy - (153 * mp + 2) / 5 + 1)
}

/// The date that comes so many days after the first of January 1970.
pub fn civil_from_days(days: i64) -> (r: (i64, u32, u32))
    requires
        days + 719468 <= i64::MAX,
    ensures
        is_date(r.0 as int, r.1 as int, r.2 as int),
        day_number(r.0 as int, r.1 as int, r.2 as int) == days,
{
    let z: i64 = days + 719468;
    let era: i64 = era_of(z);
    let doe: i64 = z - era * 146097;
    let (yoe, doy) = year_of_era(doe);
    let (mp, d) = month_of_year(doy);
    let y0: i64 = yoe + era * 400;
    proof {
        lemma_assembled(z as int, era as int, yoe as int, doy as int, mp as int, d as int);
    }
    if mp < 10 {
        (y0, (mp + 3) as u32, d as u32)
    } else {
        (y0 + 1, (mp - 9) as u32, d as u32)
    }
}

/// The parts of a day, put together, are the date with its number.
proof fn lemma_assembled(z: int, era: int, yoe: int, doy: int, mp: int, d: int)
    requires
        0 <= yoe < 400,
        0 <= doy <= 365,
        z - era * 146097 == 365 * yoe + yoe / 4 - yoe / 100 + doy,
        doy == 365 ==> is_leap(yoe + 1),
        0 <= mp <= 11,
        doy == days_before_march_month(mp) + d - 1,
        1 <= d,
        mp < 11 ==> doy < days_before_march_month(mp + 1),
    ensures
        mp < 10 ==> is_date(yoe + era * 400, mp + 3, d) && day_number(
            yoe + era * 400,
            mp + 3,
            d,
        ) == z - 719468,
        mp >= 10 ==> is_date(yoe + era * 400 + 1, mp - 9, d) && day_number(
            yoe + era * 400 + 1,
            mp - 9,
            d,
        ) == z - 719468,
{
    let y0 = yoe + era * 400;
    let y1 = y0 + 1;
    assert(y0 / 4 == 100 * era + yoe / 4);
    assert(y0 / 100 == 4 * era + yoe / 100);
    assert(y0 / 400 == era);
    assert(is_leap(y1) == is_leap(yoe + 1)) by {
        assert(y1 % 4 == (yoe + 1) % 4);
        assert(y1 % 100 == (yoe + 1) % 100);
        assert(y1 % 400 == (yoe + 1) % 400);
    }
    assert(days_before_year(y1) == 365 * y0 + y0 / 4 - y0 / 100 + y0 / 400);
    assert(days_before_year(y1) + doy == z);
    lemma_leap_step(y1);
    lemma_months(y0);
    lemma_months(y1);
    if mp < 10 {
        assert(days_before_month(y0, mp + 3) == days_before_month(y0, 3) + days_before_march_month(
            mp,
        ));
    }
}

proof fn lemma_leap_step(y: int)
    ensures
        days_before_year(y) == days_before_year(y - 1) + (if is_leap(y - 1) { 366int } else { 365 }),
{
}

/// The month of a day of a year that starts with March.
proof fn lemma_march_month(doy: int, mp: int)
    requires
        0 <= doy <= 365,
        mp == (5 * doy + 2) / 153,
    ensures
        0 <= mp <= 11,
        days_before_march_month(mp) <= doy,
        mp < 11 ==> doy < days_before_march_month(mp + 1),
{
}

proof fn lemma_day_of_year(y: int, m: int, d: int)
    requires
        is_date(y, m, d),
    ensures
        0 <= days_before_month(y, m) + d - 1 < (if is_leap(y) { 366int } else { 365 }),
{
    reveal_with_fuel(days_before_month, 13);
}

proof fn lemma_year_order(a: int, b: int)
    requires
        a <= b,
    ensures
        days_before_year(a) <= days_before_year(b),
{
}

/// A number of days is that of one date only.
pub proof fn lemma_date_unique(y: int, m: int, d: int, y2: int, m2: int, d2: int)
    requires
        is_date(y, m, d),
        is_date(y2, m2, d2),
        day_number(y, m, d) == day_number(y2, m2, d2),
    ensures
        y == y2 && m == m2 && d == d2,
{
    lemma_day_of_year(y, m, d);
    lemma_day_of_year(y2, m2, d2);
    lemma_leap_step(y + 1);
    lemma_leap_step(y2 + 1);
    if y < y2 {
        lemma_year_order(y + 1, y2);
    }
    if y2 < y {
        lemma_year_order(y2 + 1, y);
    }
    reveal_with_fuel(days_before_month, 13);
}

/// Consecutive days have consecutive numbers: the next day of a month, or the first of the next.
pub proof fn lemma_next_day(y: int, m: int, d: int)
    requires
        is_date(y, m, d),
    ensures
        d < days_in_month(y, m) ==> day_number(y, m, d + 1) == day_number(y, m, d) + 1,
        d == days_in_month(y, m) && m < 12 ==> day_number(y, m + 1, 1) == day_number(y, m, d) + 1,
        d == days_in_month(y, m) && m == 12 ==> day_number(y + 1, 1, 1) == day_number(y, m, d) + 1,
        day_number(1970, 1, 1) == 0,
{
    reveal_with_fuel(days_before_month, 13);
    lemma_leap_step(y + 1);
}

/// The lengths of the years and of the months, as everyone counts them.
#[verifier::rlimit(50)]
pub proof fn lemma_lengths(y: int, m: int)
    ensures
        y % 400 == 0 || y % 4 == 0 && y % 100 != 0 ==> day_number(y + 1, 1, 1) - day_number(y, 1, 1)
            == 366 && day_number(y, 3, 1) - day_number(y, 2, 1) == 29,
        y % 4 != 0 || y % 100 == 0 && y % 400 != 0 ==> day_number(y + 1, 1, 1) - day_number(y, 1, 1)
            == 365 && day_number(y, 3, 1) - day_number(y, 2, 1) == 28,
        m == 1 || m == 3 || m == 5 || m == 7 || m == 8 || m == 10 ==> day_number(y, m + 1, 1)
            - day_number(y, m, 1) == 31,
        m == 4 || m == 6 || m == 9 || m == 11 ==> day_number(y, m + 1, 1) - day_number(y, m, 1)
            == 30,
        is_date(y, 12, 31) && !is_date(y, 12, 32) && !is_date(y, 13, 1) && !is_date(y, 0, 1),
{
    assert(days_before_month(y, 3) == days_before_month(y, 2) + days_in_month(y, 2));
    assert(m >= 1 ==> days_before_month(y, m + 1) == days_before_month(y, m) + days_in_month(y, m));
    lemma_year_length(y);
}

proof fn lemma_year_length(y: int)
    ensures
        days_before_year(y + 1) - days_before_year(y) == (if is_leap(y) { 366int } else { 365 }),
{
}

} // verus!
