use kuvpn::diagnostics::{days_to_ymd as loop_days_to_ymd, format_iso_timestamp, is_leap, iso_timestamp_of, now_iso, MAX_DAY_NUMBER};
use kuvpn::history::{days_to_ymd, event_kind_label, format_duration, format_timestamp, ConnectionEvent, EventKind};
use kuvpn::utils::{js_escape, CancellationToken};

#[test]
fn js_escape_quotes_and_backslashes() {
    assert_eq!(js_escape("it's"), "it\\'s");
    assert_eq!(js_escape("a\\b"), "a\\\\b");
    assert_eq!(js_escape("plain"), "plain");
    assert_eq!(js_escape(""), "");
    assert_eq!(js_escape("\\'"), "\\\\\\'");
}

#[test]
fn js_escape_round_trip_on_examples() {
    // Reading the escaped text back (a backslash takes the next char) gives the input.
    for s in ["p@ss'w\\rd", "'''", "\\\\", "ünïcødé 'x'"] {
        let e = js_escape(s);
        let mut out = String::new();
        let mut it = e.chars();
        while let Some(c) = it.next() {
            if c == '\\' {
                out.push(it.next().unwrap());
            } else {
                assert_ne!(c, '\'');
                out.push(c);
            }
        }
        assert_eq!(out, s);
    }
}

#[test]
fn leap_years() {
    assert!(is_leap(2000));
    assert!(is_leap(2024));
    assert!(!is_leap(1900));
    assert!(!is_leap(2023));
}

#[test]
fn day_numbers_to_dates() {
    assert_eq!(loop_days_to_ymd(0), (1970, 1, 1));
    assert_eq!(loop_days_to_ymd(59), (1970, 3, 1));
    assert_eq!(loop_days_to_ymd(11016), (2000, 2, 29));
    assert_eq!(loop_days_to_ymd(19723), (2024, 1, 1));
    assert_eq!(days_to_ymd(0), (1970, 1, 1));
    assert_eq!(days_to_ymd(11016), (2000, 2, 29));
    assert_eq!(days_to_ymd(19723), (2024, 1, 1));
}

#[test]
fn both_day_conversions_agree() {
    let mut d = 0u64;
    while d < 200_000 {
        let (y, m, dd) = loop_days_to_ymd(d);
        assert_eq!(days_to_ymd(d), (y as u64, m as u64, dd as u64));
        d += 7;
    }
}

#[test]
fn timestamps() {
    assert_eq!(format_timestamp(0), "1970-01-01 00:00:00");
    assert_eq!(format_timestamp(951_782_400 + 3_723), "2000-02-29 01:02:03");
    assert_eq!(format_iso_timestamp(0), "1970-01-01T00:00:00");
    assert_eq!(format_iso_timestamp(1_700_000_000), "2023-11-14T22:13:20");
    let now = now_iso().expect("clock within range");
    assert_eq!(now.len(), 19);
    assert_eq!(&now[10..11], "T");
}

#[test]
fn durations() {
    assert_eq!(format_duration(0), "0s");
    assert_eq!(format_duration(59), "59s");
    assert_eq!(format_duration(60), "1m 0s");
    assert_eq!(format_duration(3599), "59m 59s");
    assert_eq!(format_duration(3600), "1h 0m");
    assert_eq!(format_duration(7384), "2h 3m");
}

#[test]
fn connection_events() {
    let e = ConnectionEvent::at(EventKind::Error, 42);
    assert_eq!(e.timestamp_unix, 42);
    assert_eq!(e.kind, EventKind::Error);
    assert!(e.duration_secs.is_none() && e.message.is_none());
    let n = ConnectionEvent::now(EventKind::Connected);
    assert_eq!(n.kind, EventKind::Connected);
    assert!(n.timestamp_unix > 1_600_000_000);
}

#[test]
fn cancellation_is_shared_by_clones() {
    let t = CancellationToken::new();
    let c = t.clone();
    assert!(!c.is_cancelled());
    t.cancel();
    assert!(c.is_cancelled());
}

#[test]
fn test_module_compiles() {
    // Basic compilation test
    assert!(true);
}

#[test]
fn prefixes() {
    assert!(kuvpn::text::starts_with_str("inet 10.0.0.1", "inet "));
    assert!(kuvpn::text::starts_with_str("abc", ""));
    assert!(!kuvpn::text::starts_with_str("ine", "inet "));
    assert!(!kuvpn::text::starts_with_str("inet6 fe80::1", "inet "));
}

#[test]
fn history_rows() {
    assert_eq!(event_kind_label(EventKind::Connected), "Connected");
    assert_eq!(event_kind_label(EventKind::Reconnected), "Reconnected");
    assert_eq!(event_kind_label(EventKind::Disconnected), "Disconnected");
    assert_eq!(event_kind_label(EventKind::Cancelled), "Cancelled");
    assert_eq!(event_kind_label(EventKind::Error), "Error");
    let mut e = ConnectionEvent::at(EventKind::Disconnected, 86_400 + 3_661);
    assert_eq!(e.time_text(), "1970-01-02 01:01:01");
    e.duration_secs = Some(3_725);
    assert_eq!(e.time_text(), "1970-01-02 01:01:01 \u{b7} 1h 2m");
    e.duration_secs = Some(59);
    assert_eq!(e.time_text(), "1970-01-02 01:01:01 \u{b7} 59s");
    let mut r = ConnectionEvent::at(EventKind::Reconnected, 0);
    r.duration_secs = Some(125);
    assert_eq!(r.time_text(), "1970-01-01 00:00:00 \u{b7} prev: 2m 5s");
    r.duration_secs = None;
    assert_eq!(r.time_text(), "1970-01-01 00:00:00");
}

#[test]
fn trimming_matches_std() {
    for s in ["", "   ", "  a b  ", "\t\nx\r\n", "\u{3000}wide\u{2003}", "\u{85}n\u{a0}", "plain", "a\u{200b}"] {
        assert_eq!(kuvpn::text::trim_text(s), s.trim(), "{:?}", s);
    }
}

#[test]
fn replacing_matches_std() {
    let cases = [
        ("MODE={TUNNEL_MODE} and {TUNNEL_MODE}", "{TUNNEL_MODE}", "full"),
        ("aaaa", "aa", "b"),
        ("abcabc", "bc", ""),
        ("no match", "xyz", "q"),
        ("", "a", "b"),
        ("aaa", "a", "aa"),
    ];
    for (s, from, to) in cases {
        assert_eq!(kuvpn::text::replace_text(s, from, to), s.replace(from, to), "{:?}", (s, from, to));
    }
}

#[test]
fn iso_timestamps_up_to_the_last_u32_year() {
    assert_eq!(iso_timestamp_of(0).as_deref(), Some("1970-01-01T00:00:00"));
    // The last accepted day is the last day of year u32::MAX.
    assert_eq!(days_to_ymd(MAX_DAY_NUMBER), (u32::MAX as u64, 12, 31));
    assert_eq!(days_to_ymd(MAX_DAY_NUMBER + 1), (u32::MAX as u64 + 1, 1, 1));
    assert_eq!(iso_timestamp_of((MAX_DAY_NUMBER + 1) * 86400), None);
    assert_eq!(iso_timestamp_of(u64::MAX), None);
}
