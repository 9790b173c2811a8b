use kuvpn::error::{AuthError, ErrorCategory};
use kuvpn::history::EventKind;
use kuvpn::session::{
    cleanup, connected_event, format_log_line, needs_sudo_password, reconnects_exhausted, should_reconnect, ConnectionStatus,
    LogLevel, ParsedLog, SessionState, SudoAnswer, SudoPrompt, SudoVerdict, Watchdog, WatchdogStep,
};

#[test]
fn parse_log_lines() {
    let p = ParsedLog::parse("Error|something broke").unwrap();
    assert_eq!(p.level, LogLevel::Error);
    assert_eq!(p.message, "something broke");
    assert_eq!(p.prefix(), "ERR");
    let p = ParsedLog::parse("Info|a|b").unwrap();
    assert_eq!(p.level, LogLevel::Info);
    assert_eq!(p.message, "a|b");
    assert_eq!(p.prefix(), "INF");
    assert_eq!(ParsedLog::parse("Trace|").unwrap().message, "");
    assert!(ParsedLog::parse("Diagnostic|/tmp/x.json").is_none());
    assert!(ParsedLog::parse("no separator").is_none());
    assert!(ParsedLog::parse("error|lowercase").is_none());
    assert!(ParsedLog::parse("").is_none());
}

#[test]
fn log_line_round_trip() {
    for (level, name, prefix) in [
        (LogLevel::Error, "Error", "ERR"),
        (LogLevel::Warn, "Warn", "WRN"),
        (LogLevel::Info, "Info", "INF"),
        (LogLevel::Debug, "Debug", "DBG"),
        (LogLevel::Trace, "Trace", "TRC"),
    ] {
        for msg in ["", "Connected.", "x|y|z", "ünï"] {
            let line = format_log_line(level, msg);
            assert_eq!(line, format!("{}|{}", name, msg));
            let p = ParsedLog::parse(&line).unwrap();
            assert_eq!(p.level, level);
            assert_eq!(p.message, msg);
            assert_eq!(p.prefix(), prefix);
        }
    }
}

#[test]
fn connect_only_when_finished() {
    let mut s = SessionState::new();
    assert!(s.is_finished());
    assert!(s.try_begin_connect());
    assert_eq!(s.status, ConnectionStatus::Connecting);
    assert!(!s.is_finished());
    assert!(!s.try_begin_connect());
    assert_eq!(s.status, ConnectionStatus::Connecting);
    s.set_conn_error("boom");
    assert!(s.is_finished());
    assert!(s.try_begin_connect());
    assert!(s.last_error.is_none() && s.error_category.is_none());
}

#[test]
fn cancel_transitions() {
    for (before, after) in [
        (ConnectionStatus::Connected, ConnectionStatus::Disconnecting),
        (ConnectionStatus::Connecting, ConnectionStatus::Disconnecting),
        (ConnectionStatus::Disconnected, ConnectionStatus::Disconnected),
        (ConnectionStatus::Error, ConnectionStatus::Error),
        (ConnectionStatus::Disconnecting, ConnectionStatus::Disconnecting),
    ] {
        let mut s = SessionState::new();
        s.set_status(before);
        s.transition_to_disconnecting();
        assert_eq!(s.status, after);
    }
}

#[test]
fn login_error_after_cancel_is_not_reported() {
    let mut s = SessionState::new();
    assert!(s.try_begin_connect());
    s.transition_to_disconnecting();
    let line = s.handle_login_error("Operation cancelled by user", None);
    assert!(line.is_none());
    assert_eq!(s.status, ConnectionStatus::Disconnected);
    assert!(s.last_error.is_none());
}

#[test]
fn login_error_is_recorded() {
    let mut s = SessionState::new();
    assert!(s.try_begin_connect());
    let line = s.handle_login_error("bad password", None);
    assert_eq!(line.as_deref(), Some("Error|bad password"));
    assert_eq!(s.status, ConnectionStatus::Error);
    assert_eq!(s.last_error.as_deref(), Some("bad password"));
    assert_eq!(s.error_category, Some(ErrorCategory::Authentication));
    let mut s = SessionState::new();
    s.handle_login_error("x", Some(ErrorCategory::Connection));
    assert_eq!(s.error_category, Some(ErrorCategory::Connection));
    let e = AuthError::IncorrectPassword { message: "Your account or password is incorrect.".to_string() };
    assert_eq!(e.category(), ErrorCategory::Authentication);
    assert_eq!(e.message(), "Your account or password is incorrect.");
    assert_eq!(AuthError::Cancelled.message(), "Operation cancelled by user");
    assert_eq!(AuthError::Cancelled.category(), ErrorCategory::Authentication);
    let b = AuthError::BrowserError { message: "Browser connection lost: gone".to_string() };
    assert_eq!(b.category(), ErrorCategory::System);
}

#[test]
fn reconnect_policy() {
    assert!(should_reconnect(false, Some(10), 0));
    assert!(should_reconnect(false, Some(0), 2));
    assert!(!should_reconnect(false, Some(10), 3));
    assert!(!should_reconnect(true, Some(10), 0));
    assert!(!should_reconnect(false, None, 0));
    let mut attempts = 0u32;
    while should_reconnect(false, Some(1), attempts) {
        attempts += 1;
    }
    assert_eq!(attempts, 3);
    let mut s = SessionState::new();
    s.set_conn_error("dropped");
    let line = s.begin_reconnect(2);
    assert_eq!(line, "Info|Reconnecting... (attempt 2/3)");
    assert_eq!(s.status, ConnectionStatus::Connecting);
    assert!(s.last_error.is_none());
}

#[test]
fn watchdog_flow() {
    let mut s = SessionState::new();
    s.set_status(ConnectionStatus::Connecting);
    let mut w = Watchdog::new(true);
    assert_eq!(w.step(&mut s, false, false, false, Some(true)), (WatchdogStep::Wait, None));
    let (step, line) = w.step(&mut s, false, true, false, Some(true));
    assert_eq!(step, WatchdogStep::Connected);
    assert_eq!(line.as_deref(), Some("Info|Connected."));
    assert_eq!(s.status, ConnectionStatus::Connected);
    assert_eq!(w.step(&mut s, false, true, false, Some(true)).0, WatchdogStep::Wait);
    assert_eq!(w.step(&mut s, false, false, false, Some(true)).0, WatchdogStep::Dropped);
    let (step, line) = w.step(&mut s, true, true, false, Some(true));
    assert_eq!(step, WatchdogStep::Cancelled);
    assert_eq!(line.as_deref(), Some("Info|Disconnecting..."));
}

#[test]
fn watchdog_failures() {
    let mut s = SessionState::new();
    let mut w = Watchdog::new(true);
    let (step, line) = w.step(&mut s, false, false, true, Some(true));
    assert_eq!(step, WatchdogStep::TimedOut);
    assert_eq!(line.as_deref(), Some("Error|VPN tunnel failed to establish within timeout"));
    assert_eq!(s.status, ConnectionStatus::Error);
    assert_eq!(s.error_category, Some(ErrorCategory::Connection));
    let mut s = SessionState::new();
    let mut w = Watchdog::new(true);
    let (step, _) = w.step(&mut s, false, false, false, Some(false));
    assert_eq!(step, WatchdogStep::ProcessExited);
    assert_eq!(s.last_error.as_deref(), Some("OpenConnect process exited before tunnel was established"));
    // A tunnel that was already up when the session started is watched as connected.
    let mut s = SessionState::new();
    let mut w = Watchdog::new(false);
    assert_eq!(w.step(&mut s, false, false, false, None).0, WatchdogStep::Dropped);
    let mut w = Watchdog::new(false);
    assert_eq!(w.step(&mut s, true, false, false, None), (WatchdogStep::Cancelled, None));
}

#[test]
fn history_events_of_a_session() {
    let e = connected_event(true, Some(120), 7);
    assert_eq!(e.kind, EventKind::Reconnected);
    assert_eq!(e.duration_secs, Some(120));
    let e = connected_event(false, None, 7);
    assert_eq!(e.kind, EventKind::Connected);

    let mut s = SessionState::new();
    s.set_status(ConnectionStatus::Disconnecting);
    let (e, line) = cleanup(&mut s, true, Some(5), 0, 9);
    assert_eq!(e.kind, EventKind::Error);
    assert_eq!(e.message.as_deref(), Some("Failed to stop OpenConnect. Please close it manually."));
    assert_eq!(line.as_deref(), Some("Error|Failed to stop OpenConnect. Please close it manually."));
    assert!(s.is_finished());

    let mut s = SessionState::new();
    s.set_status(ConnectionStatus::Disconnecting);
    let (e, line) = cleanup(&mut s, false, Some(5), 0, 9);
    assert_eq!((e.kind, e.duration_secs, e.timestamp_unix), (EventKind::Disconnected, Some(5), 9));
    assert_eq!(e.message, None);
    assert_eq!(line.as_deref(), Some("Info|Disconnected."));
    assert_eq!(s.status, ConnectionStatus::Disconnected);

    let mut s = SessionState::new();
    s.set_status(ConnectionStatus::Disconnecting);
    let (e, _) = cleanup(&mut s, false, Some(40), 2, 9);
    assert_eq!(e.kind, EventKind::Disconnected);
    assert_eq!(e.message.as_deref(), Some("Reconnect attempts: 2"));

    let mut s = SessionState::new();
    s.handle_login_error("auth failed", None);
    let (e, line) = cleanup(&mut s, false, None, 0, 9);
    assert_eq!(e.kind, EventKind::Error);
    assert_eq!(e.message.as_deref(), Some("auth failed"));
    assert!(line.is_none());
    assert_eq!(s.status, ConnectionStatus::Error);

    let mut s = SessionState::new();
    s.set_status(ConnectionStatus::Disconnecting);
    let (e, line) = cleanup(&mut s, false, None, 0, 9);
    assert_eq!(e.kind, EventKind::Cancelled);
    assert_eq!(line.as_deref(), Some("Info|Cancelled."));
    assert!(s.is_finished());
}

#[test]
fn sudo_password_dialogue() {
    assert!(needs_sudo_password(true, true, false));
    assert!(!needs_sudo_password(true, true, true));
    assert!(!needs_sudo_password(false, true, false));
    let mut p = SudoPrompt::new("sudo");
    let (text, line) = p.prompt();
    assert_eq!(text, "Enter your sudo password to start the VPN tunnel");
    assert_eq!(line, "Info|sudo requires a password. Prompting...");
    assert!(matches!(p.on_answer(None, false), SudoAnswer::Cancel));
    assert!(matches!(p.on_answer(Some(String::new()), true), SudoAnswer::Cancel));
    assert!(matches!(p.on_answer(Some(String::new()), false), SudoAnswer::Verify(ref s) if s.is_empty()));
    assert!(matches!(p.on_verdict("wrong".to_string(), Some(false)), SudoVerdict::Retry));
    let (text, _) = p.prompt();
    assert_eq!(text, "Wrong password \u{2014} please try again. Enter your sudo password to start the VPN tunnel");
    assert!(matches!(p.on_verdict("right".to_string(), Some(true)), SudoVerdict::Accept(ref s) if s == "right"));
    assert!(matches!(p.on_verdict("maybe".to_string(), None), SudoVerdict::Accept(ref s) if s == "maybe"));
}

#[test]
fn reconnects_exhausted_warning() {
    assert_eq!(
        reconnects_exhausted(false, Some(30), 3).as_deref(),
        Some("Warn|All 3 reconnect attempts exhausted. Giving up.")
    );
    assert_eq!(reconnects_exhausted(false, Some(30), 2), None);
    assert_eq!(reconnects_exhausted(true, Some(30), 3), None);
    assert_eq!(reconnects_exhausted(false, None, 3), None);
}
