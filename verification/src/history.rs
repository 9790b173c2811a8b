//! Connection event history: the record of each connect, reconnect,
//! disconnect, cancellation and failure, and its display text.

use vstd::prelude::*;
use crate::calendar::{
    day_number, days_before_month, days_from_march_epoch, is_leap_year,
    lemma_days_before_year_from_march, lemma_leap_period, lemma_march_epoch_monotone,
    lemma_march_epoch_period, lemma_march_year_length, lemma_month_of_year, lemma_year_of_era,
    march_month_offset, valid_date, ymd_of_day_number,
    lemma_ymd_of_day_number,
};
use crate::text::{decimal, push_char, push_decimal, push_str, zero_pad};

verus! {

/// Seconds since the Unix epoch according to the system clock.
/// Calls `SystemTime::now` and takes its distance from `UNIX_EPOCH` in whole
/// seconds (0 when the clock reads before the epoch). Nothing is stated of the
/// value: it is whatever the clock says.
#[verifier::external_body]
pub(crate) fn now_unix() -> u64 {
    std::time::SystemTime::now()
        .duration_since(std::time::UNIX_EPOCH)
        .unwrap_or_default()
        .as_secs()
}


/// Converts a day number (days since 1970-01-01) into `(year, month, day)`
/// with the era-based civil-from-days computation (400-year eras of 146097
/// days, years counted from March 1st).
pub fn days_to_ymd(days: u64) -> (r: (u64, u64, u64))
    requires
        days <= u64::MAX - 719468,
    ensures
        valid_date(r.0 as int, r.1 as int, r.2 as int),
        day_number(r.0 as int, r.1 as int, r.2 as int) == days,
{
    let z = days + 719468;
    let era = z / 146097;
    assert(era * 146097 <= z && z - era * 146097 < 146097) by (nonlinear_arith)
        requires era == z / 146097, z >= 0;
    let doe = z - era * 146097;
    proof {
        lemma_year_of_era(doe as int);
    }
    let yoe = (doe - doe / 1460 + doe / 36524 - doe / 146096) / 365;
    assert(era * 400 <= z) by (nonlinear_arith)
        requires era * 146097 <= z, era >= 0;
    let y = yoe + era * 400;
    let doy = doe - (365 * yoe + yoe / 4 - yoe / 100);
    proof {
        lemma_march_year_length(yoe as int);
        lemma_month_of_year(doy as int);
    }
    let mp = (5 * doy + 2) / 153;
    let d = doy - (153 * mp + 2) / 5 + 1;
    let m = if mp < 10 { mp + 3 } else { mp - 9 };
    let y2 = if m <= 2 { y + 1 } else { y };
    proof {
        let big_y = y as int;
        lemma_march_epoch_period(era as int, yoe as int);
        lemma_leap_period(era as int, yoe as int + 1);
        lemma_leap_period(era as int, yoe as int);
        assert(days_from_march_epoch(big_y) + doy == z);
        if big_y < 1969 {
            lemma_march_epoch_monotone(big_y, 1968);
            assert(false);
        }
        if mp < 10 {
            if big_y == 1969 {
                assert(false);
            }
            lemma_days_before_year_from_march(big_y - 1);
            lemma_march_year_length(big_y - 1);
            assert(days_before_month(big_y, m as int) == 59 + (if is_leap_year(big_y) { 1int } else { 0 }) + march_month_offset(mp as int));
        } else {
            lemma_days_before_year_from_march(big_y);
        }
    }
    (y2, m, d)
}


/// What happened to the connection.
#[derive(Debug, Clone, Copy, PartialEq, Eq, Structural)]
pub enum EventKind {
    Connected,
    Reconnected,
    Disconnected,
    Cancelled,
    Error,
}

/// One entry of the connection history.
#[derive(Debug, Clone)]
pub struct ConnectionEvent {
    /// Unix timestamp (seconds) when the event occurred.
    pub timestamp_unix: u64,
    pub kind: EventKind,
    /// Duration in seconds (set on Disconnected / Error / Reconnected).
    pub duration_secs: Option<u64>,
    /// Error message (set on Error).
    pub message: Option<String>,
}

impl ConnectionEvent {
    /// An event of `kind` stamped with `timestamp_unix`, with no duration and no message.
    pub fn at(kind: EventKind, timestamp_unix: u64) -> (e: ConnectionEvent)
        ensures
            e.kind == kind,
            e.timestamp_unix == timestamp_unix,
            e.duration_secs is None,
            e.message is None,
    {
        ConnectionEvent { timestamp_unix, kind, duration_secs: None, message: None }
    }

    /// An event of `kind` stamped with the current time.
    pub fn now(kind: EventKind) -> (e: ConnectionEvent)
        ensures
            e.kind == kind,
            e.duration_secs is None,
            e.message is None,
    {
        Self::at(kind, now_unix())
    }
}

/// The history line for a Unix time: `YYYY-MM-DD HH:MM:SS` (UTC).
pub open spec fn timestamp_text(unix: nat) -> Seq<char> {
    let secs_of_day = unix % 86400;
    let (y, m, d) = ymd_of_day_number((unix / 86400) as int);
    zero_pad(decimal(y as nat), 4) + seq!['-'] + zero_pad(decimal(m as nat), 2) + seq!['-']
        + zero_pad(decimal(d as nat), 2) + seq![' ']
        + zero_pad(decimal((secs_of_day / 3600) as nat), 2) + seq![':']
        + zero_pad(decimal(((secs_of_day % 3600) / 60) as nat), 2) + seq![':']
        + zero_pad(decimal((secs_of_day % 60) as nat), 2)
}

/// Formats a Unix time as `YYYY-MM-DD HH:MM:SS` (UTC) for the history list.
pub fn format_timestamp(unix: u64) -> (r: String)
    ensures
        r@ == timestamp_text(unix as nat),
{
    let secs = unix;
    let mins = secs / 60;
    let hours_total = mins / 60;
    let days_total = hours_total / 24;
    let sec_part = secs % 60;
    let min_part = mins % 60;
    let hour_part = hours_total % 24;
    assert(days_total == secs / 86400 && hour_part == (secs % 86400) / 3600
        && min_part == ((secs % 86400) % 3600) / 60 && sec_part == (secs % 86400) % 60);
    let (year, month, day) = days_to_ymd(days_total);
    proof {
        lemma_ymd_of_day_number(days_total as int, year as int, month as int, day as int);
    }
    let mut s = String::new();
    push_decimal(&mut s, year, 4);
    push_char(&mut s, '-');
    push_decimal(&mut s, month, 2);
    push_char(&mut s, '-');
    push_decimal(&mut s, day, 2);
    push_char(&mut s, ' ');
    push_decimal(&mut s, hour_part, 2);
    push_char(&mut s, ':');
    push_decimal(&mut s, min_part, 2);
    push_char(&mut s, ':');
    push_decimal(&mut s, sec_part, 2);
    s
}

/// A duration as shown in the history list: `Ns` under a minute, `Nm Ns`
/// under an hour, `Nh Nm` otherwise.
pub open spec fn duration_text(secs: nat) -> Seq<char> {
    if secs < 60 {
        decimal(secs) + seq!['s']
    } else if secs < 3600 {
        decimal(secs / 60) + seq!['m', ' '] + decimal(secs % 60) + seq!['s']
    } else {
        decimal(secs / 3600) + seq!['h', ' '] + decimal((secs % 3600) / 60) + seq!['m']
    }
}

pub fn format_duration(secs: u64) -> (r: String)
    ensures
        r@ == duration_text(secs as nat),
{
    let mut s = String::new();
    if secs < 60 {
        push_decimal(&mut s, secs, 0);
        push_char(&mut s, 's');
    } else if secs < 3600 {
        push_decimal(&mut s, secs / 60, 0);
        push_char(&mut s, 'm');
        push_char(&mut s, ' ');
        push_decimal(&mut s, secs % 60, 0);
        push_char(&mut s, 's');
    } else {
        push_decimal(&mut s, secs / 3600, 0);
        push_char(&mut s, 'h');
        push_char(&mut s, ' ');
        push_decimal(&mut s, (secs % 3600) / 60, 0);
        push_char(&mut s, 'm');
    }
    s
}

/// The label of an event kind in the history list.
pub open spec fn event_kind_text(k: EventKind) -> Seq<char> {
    match k {
        EventKind::Connected => "Connected"@,
        EventKind::Reconnected => "Reconnected"@,
        EventKind::Disconnected => "Disconnected"@,
        EventKind::Cancelled => "Cancelled"@,
        EventKind::Error => "Error"@,
    }
}

pub fn event_kind_label(k: EventKind) -> (r: &'static str)
    ensures
        r@ == event_kind_text(k),
{
    match k {
        EventKind::Connected => "Connected",
        EventKind::Reconnected => "Reconnected",
        EventKind::Disconnected => "Disconnected",
        EventKind::Cancelled => "Cancelled",
        EventKind::Error => "Error",
    }
}

/// The time column of a history row: the timestamp, then, when the event
/// has a duration, ` · ` and the duration; a reconnect shows the duration of
/// the segment before it as ` · prev: ` and the duration.
pub open spec fn event_time_text(e: ConnectionEvent) -> Seq<char> {
    timestamp_text(e.timestamp_unix as nat) + match e.duration_secs {
        Some(d) => if e.kind == EventKind::Reconnected {
            " \u{b7} prev: "@ + duration_text(d as nat)
        } else {
            " \u{b7} "@ + duration_text(d as nat)
        },
        None => Seq::<char>::empty(),
    }
}

impl ConnectionEvent {
    pub fn time_text(&self) -> (r: String)
        ensures
            r@ == event_time_text(*self),
    {
        let mut s = format_timestamp(self.timestamp_unix);
        match self.duration_secs {
            Some(d) => {
                if self.kind == EventKind::Reconnected {
                    push_str(&mut s, " \u{b7} prev: ");
                } else {
                    push_str(&mut s, " \u{b7} ");
                }
                let dur = format_duration(d);
                push_str(&mut s, dur.as_str());
            },
            None => {},
        }
        s
    }
}

} // verus!
