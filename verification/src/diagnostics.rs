//! Snapshots of the browser state taken when login automation fails, and the
//! UTC timestamps that name them.

use vstd::prelude::*;
use crate::calendar::{
    day_number, days_before_month, days_before_year, is_leap_year, lemma_days_before_year_from_march,
    lemma_days_before_year_grows, lemma_days_before_year_step, lemma_march_epoch_monotone, lemma_month_step, lemma_ymd_of_day_number, month_length,
    valid_date, year_length, ymd_of_day_number,
};
use crate::text::{decimal, push_char, push_decimal, zero_pad};

verus! {

/// A snapshot of the browser state at the moment of an automation failure.
pub struct DiagnosticBundle {
    pub timestamp: String,
    pub url: String,
    pub page_title: String,
    pub page_html: String,
    pub error: String,
}

/// Largest day number that `days_to_ymd` accepts: the last day of year
/// `u32::MAX`, the last year that fits in a `u32`.
pub const MAX_DAY_NUMBER: u64 = 1_568_703_873_081;

/// `MAX_DAY_NUMBER` is the day before January 1st of year `2^32`.
proof fn lemma_max_day_number()
    ensures
        MAX_DAY_NUMBER + 1 == days_before_year(0x1_0000_0000),
{
    lemma_days_before_year_from_march(0xffff_ffff);
}

/// Later years start later.
proof fn lemma_days_before_year_monotone(a: int, b: int)
    requires
        1970 <= a <= b,
    ensures
        days_before_year(a) <= days_before_year(b),
{
    lemma_days_before_year_from_march(a - 1);
    lemma_days_before_year_from_march(b - 1);
    lemma_march_epoch_monotone(a - 1, b - 1);
}

pub fn is_leap(y: u32) -> (r: bool)
    ensures
        r == is_leap_year(y as int),
{
    (y % 4 == 0 && y % 100 != 0) || y % 400 == 0
}

/// Converts a day number (days since 1970-01-01) into `(year, month, day)`.
pub fn days_to_ymd(days: u64) -> (r: (u32, u32, u32))
    requires
        days <= MAX_DAY_NUMBER,
    ensures
        valid_date(r.0 as int, r.1 as int, r.2 as int),
        day_number(r.0 as int, r.1 as int, r.2 as int) == days,
{
    let mut rest: u64 = days;
    let mut year: u32 = 1970;
    loop
        invariant_except_break
            year >= 1970,
            days_before_year(year as int) + rest == days,
            days <= MAX_DAY_NUMBER,
        ensures
            year >= 1970,
            days_before_year(year as int) + rest == days,
            rest < year_length(year as int),
        decreases rest,
    {
        let dy: u64 = if is_leap(year) { 366 } else { 365 };
        if rest < dy {
            break;
        }
        proof {
            lemma_days_before_year_grows(year as int + 1);
            lemma_days_before_year_step(year as int);
            lemma_max_day_number();
            if year as int + 1 >= 0x1_0000_0000 {
                lemma_days_before_year_monotone(0x1_0000_0000, year as int + 1);
            }
        }
        rest = rest - dy;
        year = year + 1;
    }
    let leap = is_leap(year);
    let months: [u64; 12] = if leap {
        [31, 29, 31, 30, 31, 30, 31, 31, 30, 31, 30, 31]
    } else {
        [31, 28, 31, 30, 31, 30, 31, 31, 30, 31, 30, 31]
    };
    let mut month: u32 = 1;
    let mut i: usize = 0;
    while i < 12
        invariant_except_break
            0 <= i < 12,
            month == i + 1,
            leap == is_leap_year(year as int),
            forall|k: int| 0 <= k < 12 ==> #[trigger] months@[k] == month_length(year as int, k + 1),
            days_before_month(year as int, month as int) + rest + days_before_year(year as int) == days,
            days_before_month(year as int, month as int) + rest < year_length(year as int),
        ensures
            1 <= month <= 12,
            days_before_month(year as int, month as int) + rest + days_before_year(year as int) == days,
            rest < month_length(year as int, month as int),
        decreases 12 - i,
    {
        let dim = months[i];
        if rest < dim {
            break;
        }
        proof {
            lemma_month_step(year as int, month as int);
        }
        rest = rest - dim;
        month = month + 1;
        i = i + 1;
    }
    (year, month, rest as u32 + 1)
}

/// The text `YYYY-MM-DDTHH:MM:SS` of a Unix time in seconds, UTC.
pub open spec fn iso_timestamp_text(ts: nat) -> Seq<char> {
    let secs_of_day = ts % 86400;
    let (y, m, d) = ymd_of_day_number((ts / 86400) as int);
    zero_pad(decimal(y as nat), 4) + seq!['-'] + zero_pad(decimal(m as nat), 2) + seq!['-']
        + zero_pad(decimal(d as nat), 2) + seq!['T']
        + zero_pad(decimal((secs_of_day / 3600) as nat), 2) + seq![':']
        + zero_pad(decimal(((secs_of_day % 3600) / 60) as nat), 2) + seq![':']
        + zero_pad(decimal((secs_of_day % 60) as nat), 2)
}

/// Formats a Unix time in seconds as `YYYY-MM-DDTHH:MM:SS` (UTC).
pub fn format_iso_timestamp(ts: u64) -> (r: String)
    requires
        ts / 86400 <= MAX_DAY_NUMBER,
    ensures
        r@ == iso_timestamp_text(ts as nat),
{
    let secs_of_day = ts % 86400;
    let hour = secs_of_day / 3600;
    let min = (secs_of_day % 3600) / 60;
    let sec = secs_of_day % 60;
    let (year, month, day) = days_to_ymd(ts / 86400);
    proof {
        lemma_ymd_of_day_number((ts / 86400) as int, year as int, month as int, day as int);
    }
    let mut s = String::new();
    push_decimal(&mut s, year as u64, 4);
    push_char(&mut s, '-');
    push_decimal(&mut s, month as u64, 2);
    push_char(&mut s, '-');
    push_decimal(&mut s, day as u64, 2);
    push_char(&mut s, 'T');
    push_decimal(&mut s, hour, 2);
    push_char(&mut s, ':');
    push_decimal(&mut s, min, 2);
    push_char(&mut s, ':');
    push_decimal(&mut s, sec, 2);
    s
}

/// A Unix time in seconds as `YYYY-MM-DDTHH:MM:SS` (UTC); `None` exactly
/// when its year does not fit in a `u32`.
pub fn iso_timestamp_of(ts: u64) -> (r: Option<String>)
    ensures
        (r is Some) == (ts / 86400 <= MAX_DAY_NUMBER),
        r matches Some(s) ==> s@ == iso_timestamp_text(ts as nat),
{
    if ts / 86400 <= MAX_DAY_NUMBER {
        Some(format_iso_timestamp(ts))
    } else {
        None
    }
}

/// The current UTC time formatted as `YYYY-MM-DDTHH:MM:SS`: the text of the
/// clock reading, which the contract does not fix; `None` only when the
/// reading's year does not fit in a `u32`.
pub fn now_iso() -> (r: Option<String>)
    ensures
        exists|ts: u64| #[trigger] iso_result(ts, r),
{
    let ts = crate::history::now_unix();
    let r = iso_timestamp_of(ts);
    assert(iso_result(ts, r));
    r
}

/// `r` is what `iso_timestamp_of` gives for `ts`.
pub open spec fn iso_result(ts: u64, r: Option<String>) -> bool {
    &&& (r is Some) == (ts / 86400 <= MAX_DAY_NUMBER)
    &&& r matches Some(s) ==> s@ == iso_timestamp_text(ts as nat)
}

} // verus!
