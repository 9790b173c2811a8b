//! The proleptic Gregorian calendar counted in days since 1970-01-01, as the
//! model that both date conversions of the library are proved against.

use vstd::prelude::*;

verus! {

pub open spec fn is_leap_year(y: int) -> bool {
    (y % 4 == 0 && y % 100 != 0) || y % 400 == 0
}

pub open spec fn year_length(y: int) -> int {
    if is_leap_year(y) { 366 } else { 365 }
}

/// Days from 1970-01-01 to January 1st of year `y` (for `y >= 1970`).
pub open spec fn days_before_year(y: int) -> int
    decreases y - 1970,
{
    if y <= 1970 {
        0
    } else {
        days_before_year(y - 1) + year_length(y - 1)
    }
}

/// Length of month `m` (1 = January) in year `y`.
pub open spec fn month_length(y: int, m: int) -> int {
    if m == 2 {
        if is_leap_year(y) { 29 } else { 28 }
    } else if m == 4 || m == 6 || m == 9 || m == 11 {
        30
    } else {
        31
    }
}

/// Days from January 1st to the first day of month `m` (1 = January).
pub open spec fn days_before_month(y: int, m: int) -> int {
    let l: int = if is_leap_year(y) { 1 } else { 0 };
    if m <= 1 { 0 }
    else if m == 2 { 31 }
    else if m == 3 { 59 + l }
    else if m == 4 { 90 + l }
    else if m == 5 { 120 + l }
    else if m == 6 { 151 + l }
    else if m == 7 { 181 + l }
    else if m == 8 { 212 + l }
    else if m == 9 { 243 + l }
    else if m == 10 { 273 + l }
    else if m == 11 { 304 + l }
    else if m == 12 { 334 + l }
    else { 365 + l }
}

/// A real calendar date no earlier than 1970-01-01.
pub open spec fn valid_date(y: int, m: int, d: int) -> bool {
    &&& y >= 1970
    &&& 1 <= m <= 12
    &&& 1 <= d <= month_length(y, m)
}

/// The day number (days since 1970-01-01) of a date.
pub open spec fn day_number(y: int, m: int, d: int) -> int {
    days_before_year(y) + days_before_month(y, m) + d - 1
}

pub proof fn lemma_days_before_year_grows(y: int)
    requires
        y >= 1970,
    ensures
        days_before_year(y) >= 365 * (y - 1970),
        days_before_year(y) >= 0,
    decreases y - 1970,
{
    if y > 1970 {
        lemma_days_before_year_grows(y - 1);
    }
}

pub proof fn lemma_days_before_year_step(y: int)
    requires
        y >= 1970,
    ensures
        days_before_year(y + 1) == days_before_year(y) + year_length(y),
{
}

pub proof fn lemma_month_step(y: int, m: int)
    requires
        1 <= m <= 12,
    ensures
        days_before_month(y, m + 1) == days_before_month(y, m) + month_length(y, m),
{
}

/// Two dates with the same day number are the same date.
pub proof fn lemma_day_number_injective(y1: int, m1: int, d1: int, y2: int, m2: int, d2: int)
    requires
        valid_date(y1, m1, d1),
        valid_date(y2, m2, d2),
        day_number(y1, m1, d1) == day_number(y2, m2, d2),
    ensures
        y1 == y2,
        m1 == m2,
        d1 == d2,
{
    lemma_date_within_year(y1, m1, d1);
    lemma_date_within_year(y2, m2, d2);
    if y1 < y2 {
        lemma_days_before_year_monotone(y1 + 1, y2);
        lemma_days_before_year_step(y1);
        assert(false);
    } else if y2 < y1 {
        lemma_days_before_year_monotone(y2 + 1, y1);
        lemma_days_before_year_step(y2);
        assert(false);
    }
}

proof fn lemma_date_within_year(y: int, m: int, d: int)
    requires
        valid_date(y, m, d),
    ensures
        0 <= days_before_month(y, m) + d - 1 < year_length(y),
        days_before_month(y, m) + d - 1 >= days_before_month(y, m),
        days_before_month(y, m) + d - 1 < days_before_month(y, m + 1),
{
}

proof fn lemma_days_before_year_monotone(a: int, b: int)
    requires
        1970 <= a <= b,
    ensures
        days_before_year(a) <= days_before_year(b),
    decreases b - a,
{
    if a < b {
        lemma_days_before_year_monotone(a, b - 1);
    }
}


/// The date whose day number is `n`: the calendar date `n` days after
/// 1970-01-01 (unique by `lemma_day_number_injective`).
pub open spec fn ymd_of_day_number(n: int) -> (int, int, int) {
    choose|t: (int, int, int)| valid_date(t.0, t.1, t.2) && day_number(t.0, t.1, t.2) == n
}

pub proof fn lemma_ymd_of_day_number(n: int, y: int, m: int, d: int)
    requires
        valid_date(y, m, d),
        day_number(y, m, d) == n,
    ensures
        ymd_of_day_number(n) == (y, m, d),
{
    let t = ymd_of_day_number(n);
    assert(valid_date((y, m, d).0, (y, m, d).1, (y, m, d).2) && day_number((y, m, d).0, (y, m, d).1, (y, m, d).2) == n);
    lemma_day_number_injective(t.0, t.1, t.2, y, m, d);
}


/// Days from 0000-03-01 to `y`-03-01 in the proleptic Gregorian calendar.
pub open spec fn days_from_march_epoch(y: int) -> int {
    365 * y + y / 4 - y / 100 + y / 400
}

pub proof fn lemma_year_of_era(doe: int)
    requires
        0 <= doe < 146097,
    ensures
        ({
            let yoe = (doe - doe / 1460 + doe / 36524 - doe / 146096) / 365;
            &&& 0 <= yoe <= 399
            &&& days_from_march_epoch(yoe) <= doe < days_from_march_epoch(yoe + 1)
        }),
{
}


/// Offset of March-based month `mp` (0 = March, ..., 11 = February) from the
/// start of a March-based year.
pub open spec fn march_month_offset(mp: int) -> int {
    (153 * mp + 2) / 5
}

pub proof fn lemma_month_of_year(doy: int)
    requires
        0 <= doy < 366,
    ensures
        ({
            let mp = (5 * doy + 2) / 153;
            &&& 0 <= mp <= 11
            &&& march_month_offset(mp) <= doy
            &&& mp < 11 ==> doy < march_month_offset(mp + 1)
        }),
{
}

pub proof fn lemma_march_year_length(y: int)
    requires
        y >= 0,
    ensures
        days_from_march_epoch(y + 1) == days_from_march_epoch(y) + year_length(y + 1),
{
}

pub proof fn lemma_march_epoch_period(e: int, k: int)
    requires
        e >= 0,
        0 <= k,
    ensures
        days_from_march_epoch(400 * e + k) == 146097 * e + days_from_march_epoch(k),
{
    assert((400 * e + k) / 4 == 100 * e + k / 4) by (nonlinear_arith)
        requires e >= 0, k >= 0;
    assert((400 * e + k) / 100 == 4 * e + k / 100) by (nonlinear_arith)
        requires e >= 0, k >= 0;
    assert((400 * e + k) / 400 == e + k / 400) by (nonlinear_arith)
        requires e >= 0, k >= 0;
}

pub proof fn lemma_leap_period(e: int, k: int)
    requires
        e >= 0,
    ensures
        is_leap_year(400 * e + k) == is_leap_year(k),
{
    assert((400 * e + k) % 4 == k % 4) by (nonlinear_arith)
        requires e >= 0;
    assert((400 * e + k) % 100 == k % 100) by (nonlinear_arith)
        requires e >= 0;
    assert((400 * e + k) % 400 == k % 400) by (nonlinear_arith)
        requires e >= 0;
}

/// January 1st of year `y + 1` lies 306 days after `y`-03-01.
pub proof fn lemma_days_before_year_from_march(y: int)
    requires
        y >= 1969,
    ensures
        days_before_year(y + 1) == days_from_march_epoch(y) + 306 - 719468,
    decreases y - 1969,
{
    if y > 1969 {
        lemma_days_before_year_from_march(y - 1);
        lemma_march_year_length(y - 1);
    }
}


pub proof fn lemma_march_epoch_monotone(a: int, b: int)
    requires
        0 <= a <= b,
    ensures
        days_from_march_epoch(a) <= days_from_march_epoch(b),
    decreases b - a,
{
    if a < b {
        lemma_march_epoch_monotone(a, b - 1);
        lemma_march_year_length(b - 1);
    }
}

} // verus!
