//! What the command-line front end makes of each session log line, and of
//! the session's end.

use vstd::prelude::*;
use vstd::string::*;
use crate::session::{ConnectionStatus, LogLevel, ParsedLog};
use crate::text::{contains_str, contains_text, ends_with_str, str_eq};

verus! {

/// How the terminal shows a session log line.
#[derive(Debug, Clone, Copy, PartialEq, Eq, Structural)]
pub enum CliLogEvent {
    /// Start (or update) the spinner: "Accessing campus gateway...".
    AccessingGateway,
    /// Tick off the gateway and tunnel steps.
    InitializingTunnel,
    /// The tunnel was already up; start the session clock.
    AlreadyActive,
    /// The tunnel is up; start the session clock.
    Connected,
    /// Spin while disconnecting.
    Disconnecting,
    /// Print the session length.
    Disconnected,
    /// A password prompt is about to appear: print nothing.
    PasswordPrompt,
    /// Print a failure, with manual-mode suggestions when the automation gave up.
    Failure { suggest_manual_mode: bool },
    /// Hand a warning to the logger.
    Warning,
    /// Hand anything else to the logger as information.
    Information,
}

/// The classification of a message at a level.
pub open spec fn cli_log_event_spec(level: LogLevel, msg: Seq<char>) -> CliLogEvent {
    if msg == "Accessing campus gateway..."@ {
        CliLogEvent::AccessingGateway
    } else if msg == "Initializing tunnel..."@ {
        CliLogEvent::InitializingTunnel
    } else if msg == "VPN interface already active, monitoring..."@ {
        CliLogEvent::AlreadyActive
    } else if msg == "Connected."@ {
        CliLogEvent::Connected
    } else if msg == "Disconnecting..."@ {
        CliLogEvent::Disconnecting
    } else if msg == "Disconnected."@ {
        CliLogEvent::Disconnected
    } else if ends_with_text(msg, "requires a password. Prompting..."@) {
        CliLogEvent::PasswordPrompt
    } else if level == LogLevel::Error {
        CliLogEvent::Failure {
            suggest_manual_mode: contains_text(msg, "Full Auto mode unable to complete login"@)
                || contains_text(msg, "Could not find a handler"@),
        }
    } else if level == LogLevel::Warn {
        CliLogEvent::Warning
    } else {
        CliLogEvent::Information
    }
}

pub open spec fn ends_with_text(s: Seq<char>, suffix: Seq<char>) -> bool {
    suffix.len() <= s.len() && s.subrange(s.len() - suffix.len(), s.len() as int) == suffix
}

/// Classifies a parsed session log line for the terminal.
pub fn cli_log_event(parsed: &ParsedLog) -> (e: CliLogEvent)
    ensures
        e == cli_log_event_spec(parsed.level, parsed.message@),
{
    let msg = parsed.message.as_str();
    if str_eq(msg, "Accessing campus gateway...") {
        CliLogEvent::AccessingGateway
    } else if str_eq(msg, "Initializing tunnel...") {
        CliLogEvent::InitializingTunnel
    } else if str_eq(msg, "VPN interface already active, monitoring...") {
        CliLogEvent::AlreadyActive
    } else if str_eq(msg, "Connected.") {
        CliLogEvent::Connected
    } else if str_eq(msg, "Disconnecting...") {
        CliLogEvent::Disconnecting
    } else if str_eq(msg, "Disconnected.") {
        CliLogEvent::Disconnected
    } else if ends_with_str(msg, "requires a password. Prompting...") {
        CliLogEvent::PasswordPrompt
    } else if parsed.level == LogLevel::Error {
        let suggest = contains_str(msg, "Full Auto mode unable to complete login")
            || contains_str(msg, "Could not find a handler");
        CliLogEvent::Failure { suggest_manual_mode: suggest }
    } else if parsed.level == LogLevel::Warn {
        CliLogEvent::Warning
    } else {
        CliLogEvent::Information
    }
}

/// Each session milestone message is shown as its own event, at any level,
/// and each milestone event comes from its message alone.
pub proof fn law_milestones_classified(level: LogLevel, msg: Seq<char>)
    ensures
        cli_log_event_spec(level, "Accessing campus gateway..."@) == CliLogEvent::AccessingGateway,
        cli_log_event_spec(level, "Initializing tunnel..."@) == CliLogEvent::InitializingTunnel,
        cli_log_event_spec(level, "VPN interface already active, monitoring..."@) == CliLogEvent::AlreadyActive,
        cli_log_event_spec(level, "Connected."@) == CliLogEvent::Connected,
        cli_log_event_spec(level, "Disconnecting..."@) == CliLogEvent::Disconnecting,
        cli_log_event_spec(level, "Disconnected."@) == CliLogEvent::Disconnected,
        cli_log_event_spec(level, msg) == CliLogEvent::AccessingGateway <==> msg == "Accessing campus gateway..."@,
        cli_log_event_spec(level, msg) == CliLogEvent::InitializingTunnel <==> msg == "Initializing tunnel..."@,
        cli_log_event_spec(level, msg) == CliLogEvent::AlreadyActive
            <==> msg == "VPN interface already active, monitoring..."@,
        cli_log_event_spec(level, msg) == CliLogEvent::Connected <==> msg == "Connected."@,
        cli_log_event_spec(level, msg) == CliLogEvent::Disconnecting <==> msg == "Disconnecting..."@,
        cli_log_event_spec(level, msg) == CliLogEvent::Disconnected <==> msg == "Disconnected."@,
{
    reveal_strlit("Accessing campus gateway...");
    reveal_strlit("Initializing tunnel...");
    reveal_strlit("VPN interface already active, monitoring...");
    reveal_strlit("Connected.");
    reveal_strlit("Disconnecting...");
    reveal_strlit("Disconnected.");
    assert("Accessing campus gateway..."@.len() == 27);
    assert("Initializing tunnel..."@.len() == 22);
    assert("VPN interface already active, monitoring..."@.len() == 43);
    assert("Connected."@.len() == 10);
    assert("Disconnecting..."@.len() == 16);
    assert("Disconnected."@.len() == 13);
}

/// The command exits with failure exactly when the session ended in an error.
pub fn session_failed(status: ConnectionStatus) -> (r: bool)
    ensures
        r == (status == ConnectionStatus::Error),
{
    status == ConnectionStatus::Error
}

/// What a log line does to the terminal's spinner and session clock.
pub struct SpinnerEffect {
    /// Clear the spinner first (it was spinning).
    pub finish_and_clear: bool,
    /// The message the spinner shows from now on, if it changes.
    pub message: Option<&'static str>,
    /// Start the spinner's steady tick.
    pub start_tick: bool,
    /// Whether the spinner spins afterwards.
    pub active_after: bool,
    /// Start the session clock.
    pub start_clock: bool,
}

/// The spinner's message for an event, if it sets one.
pub open spec fn spinner_message_text(e: CliLogEvent) -> Option<Seq<char>> {
    match e {
        CliLogEvent::AccessingGateway => Some("Accessing campus gateway..."@),
        CliLogEvent::Disconnecting => Some("Disconnecting..."@),
        _ => None,
    }
}

/// The events that end the spinner: the tunnel steps, the end of a session
/// and failures.
pub open spec fn stops_spinner(e: CliLogEvent) -> bool {
    e == CliLogEvent::InitializingTunnel || e == CliLogEvent::AlreadyActive || e == CliLogEvent::Connected
        || e == CliLogEvent::Disconnected || e is Failure
}

/// The spinner step for an event, with the spinner spinning (`active`) or not:
/// the gateway step starts it if it is idle; disconnecting restarts it; the
/// tunnel steps, the end of a session and failures clear it; the clock starts
/// when the tunnel is (or already was) up.
pub fn spinner_effect(e: CliLogEvent, active: bool) -> (r: SpinnerEffect)
    ensures
        match r.message {
            Some(m) => spinner_message_text(e) == Some(m@),
            None => spinner_message_text(e) is None,
        },
        r.finish_and_clear == (active && (stops_spinner(e) || e == CliLogEvent::Disconnecting)),
        r.start_tick == ((e == CliLogEvent::AccessingGateway && !active) || e == CliLogEvent::Disconnecting),
        r.active_after == (if e == CliLogEvent::AccessingGateway || e == CliLogEvent::Disconnecting {
            true
        } else if stops_spinner(e) {
            false
        } else {
            active
        }),
        r.start_clock == (e == CliLogEvent::AlreadyActive || e == CliLogEvent::Connected),
{
    match e {
        CliLogEvent::AccessingGateway => SpinnerEffect {
            finish_and_clear: false,
            message: Some("Accessing campus gateway..."),
            start_tick: !active,
            active_after: true,
            start_clock: false,
        },
        CliLogEvent::Disconnecting => SpinnerEffect {
            finish_and_clear: active,
            message: Some("Disconnecting..."),
            start_tick: true,
            active_after: true,
            start_clock: false,
        },
        CliLogEvent::InitializingTunnel | CliLogEvent::Disconnected | CliLogEvent::Failure { .. } => SpinnerEffect {
            finish_and_clear: active,
            message: None,
            start_tick: false,
            active_after: false,
            start_clock: false,
        },
        CliLogEvent::AlreadyActive | CliLogEvent::Connected => SpinnerEffect {
            finish_and_clear: active,
            message: None,
            start_tick: false,
            active_after: false,
            start_clock: true,
        },
        _ => SpinnerEffect {
            finish_and_clear: false,
            message: None,
            start_tick: false,
            active_after: active,
            start_clock: false,
        },
    }
}

} // verus!
