//! The VPN session: its status machine, the "Level|message" log lines it
//! emits, and the decisions of the session thread (watchdog, reconnects,
//! cleanup, escalation password prompts).

use vstd::prelude::*;
use vstd::string::*;
use crate::error::ErrorCategory;
use crate::history::{ConnectionEvent, EventKind};
use crate::text::{decimal, push_char, push_decimal, push_str, str_eq};

verus! {

#[derive(Debug, Clone, Copy, PartialEq, Eq, Structural)]
pub enum ConnectionStatus {
    Disconnected,
    Connecting,
    Connected,
    Disconnecting,
    Error,
}

/// Severity of a session log line.
#[derive(Debug, Clone, Copy, PartialEq, Eq, Structural)]
pub enum LogLevel {
    Error,
    Warn,
    Info,
    Debug,
    Trace,
}

/// The name a level is written with in a log line.
pub open spec fn level_name(l: LogLevel) -> Seq<char> {
    match l {
        LogLevel::Error => "Error"@,
        LogLevel::Warn => "Warn"@,
        LogLevel::Info => "Info"@,
        LogLevel::Debug => "Debug"@,
        LogLevel::Trace => "Trace"@,
    }
}

/// The short display prefix of a level.
pub open spec fn level_prefix(l: LogLevel) -> Seq<char> {
    match l {
        LogLevel::Error => "ERR"@,
        LogLevel::Warn => "WRN"@,
        LogLevel::Info => "INF"@,
        LogLevel::Debug => "DBG"@,
        LogLevel::Trace => "TRC"@,
    }
}

/// The log line for `msg` at level `l`: `Level|message`.
pub open spec fn log_line_text(l: LogLevel, msg: Seq<char>) -> Seq<char> {
    level_name(l) + seq!['|'] + msg
}

/// What `ParsedLog::parse` makes of a raw line: a level name, a `|`, and the
/// rest as the message; `None` for anything else.
pub open spec fn parse_log_spec(raw: Seq<char>) -> Option<(LogLevel, Seq<char>)> {
    if exists|l: LogLevel| #[trigger] is_log_line_of(raw, l) {
        let l = choose|l: LogLevel| #[trigger] is_log_line_of(raw, l);
        Some((l, raw.skip(name_len(l) + 1)))
    } else {
        None
    }
}

pub open spec fn name_len(l: LogLevel) -> int {
    level_name(l).len() as int
}

/// `raw` starts with the name of `l` followed by `|`.
pub open spec fn is_log_line_of(raw: Seq<char>, l: LogLevel) -> bool {
    raw.len() > name_len(l) && raw.take(name_len(l) + 1) == level_name(l) + seq!['|']
}

pub fn level_name_str(l: LogLevel) -> (s: &'static str)
    ensures
        s@ == level_name(l),
{
    match l {
        LogLevel::Error => "Error",
        LogLevel::Warn => "Warn",
        LogLevel::Info => "Info",
        LogLevel::Debug => "Debug",
        LogLevel::Trace => "Trace",
    }
}

/// Builds the log line `Level|message` that the session sends to its listeners.
pub fn format_log_line(level: LogLevel, msg: &str) -> (r: String)
    ensures
        r@ == log_line_text(level, msg@),
{
    let mut s = String::from_str(level_name_str(level));
    push_char(&mut s, '|');
    push_str(&mut s, msg);
    s
}

/// Parsed log message from the "Level|message" format used by the session log channel.
#[derive(Debug, Clone)]
pub struct ParsedLog {
    pub level: LogLevel,
    pub message: String,
}

proof fn lemma_level_names()
    ensures
        level_name(LogLevel::Error) =~= seq!['E', 'r', 'r', 'o', 'r'],
        level_name(LogLevel::Warn) =~= seq!['W', 'a', 'r', 'n'],
        level_name(LogLevel::Info) =~= seq!['I', 'n', 'f', 'o'],
        level_name(LogLevel::Debug) =~= seq!['D', 'e', 'b', 'u', 'g'],
        level_name(LogLevel::Trace) =~= seq!['T', 'r', 'a', 'c', 'e'],
{
    reveal_strlit("Error");
    reveal_strlit("Warn");
    reveal_strlit("Info");
    reveal_strlit("Debug");
    reveal_strlit("Trace");
}

/// A log line names at most one level.
proof fn lemma_log_line_level_unique(raw: Seq<char>, a: LogLevel, b: LogLevel)
    requires
        is_log_line_of(raw, a),
        is_log_line_of(raw, b),
    ensures
        a == b,
{
    lemma_level_names();
    let na = name_len(a);
    let nb = name_len(b);
    assert((level_name(a) + seq!['|'])[na] == '|');
    assert((level_name(b) + seq!['|'])[nb] == '|');
    assert(raw.take(na + 1)[na] == raw[na]);
    assert(raw.take(nb + 1)[nb] == raw[nb]);
    assert(raw[na] == '|');
    assert(raw[nb] == '|');
    assert forall|j: int| 0 <= j < na implies raw[j] == level_name(a)[j] by {
        assert(raw.take(na + 1)[j] == raw[j]);
        assert((level_name(a) + seq!['|'])[j] == level_name(a)[j]);
    }
    assert forall|j: int| 0 <= j < nb implies raw[j] == level_name(b)[j] by {
        assert(raw.take(nb + 1)[j] == raw[j]);
        assert((level_name(b) + seq!['|'])[j] == level_name(b)[j]);
    }
    assert(raw[0] == level_name(a)[0]);
    assert(raw[0] == level_name(b)[0]);
}

/// Index of the first `|` in `s`, if any.
fn find_bar(s: &str) -> (r: Option<usize>)
    ensures
        match r {
            Some(i) => i < s@.len() && s@[i as int] == '|' && forall|k: int| 0 <= k < i ==> s@[k] != '|',
            None => forall|k: int| 0 <= k < s@.len() ==> s@[k] != '|',
        },
{
    let n = s.unicode_len();
    let mut i: usize = 0;
    while i < n
        invariant
            i <= n,
            n == s@.len(),
            forall|k: int| 0 <= k < i ==> s@[k] != '|',
        decreases n - i,
    {
        if s.get_char(i) == '|' {
            return Some(i);
        }
        i = i + 1;
    }
    None
}

fn level_named(name: &str) -> (r: Option<LogLevel>)
    ensures
        match r {
            Some(l) => name@ == level_name(l),
            None => forall|l: LogLevel| name@ != level_name(l),
        },
{
    if str_eq(name, "Error") {
        Some(LogLevel::Error)
    } else if str_eq(name, "Warn") {
        Some(LogLevel::Warn)
    } else if str_eq(name, "Info") {
        Some(LogLevel::Info)
    } else if str_eq(name, "Debug") {
        Some(LogLevel::Debug)
    } else if str_eq(name, "Trace") {
        Some(LogLevel::Trace)
    } else {
        proof {
            assert forall|l: LogLevel| name@ != level_name(l) by {
                match l {
                    LogLevel::Error => {},
                    LogLevel::Warn => {},
                    LogLevel::Info => {},
                    LogLevel::Debug => {},
                    LogLevel::Trace => {},
                }
            }
        }
        None
    }
}

impl ParsedLog {
    /// Parses a "Level|message" string. Returns None if format is invalid.
    pub fn parse(raw: &str) -> (r: Option<ParsedLog>)
        ensures
            match parse_log_spec(raw@) {
                Some((l, m)) => r matches Some(p) && p.level == l && p.message@ == m,
                None => r is None,
            },
    {
        let n = raw.unicode_len();
        match find_bar(raw) {
            None => {
                proof {
                    lemma_level_names();
                    assert forall|l: LogLevel| !is_log_line_of(raw@, l) by {
                        if is_log_line_of(raw@, l) {
                            let k = name_len(l);
                            assert(raw@.take(k + 1)[k] == '|');
                        }
                    }
                }
                None
            }
            Some(i) => {
                let name = raw.substring_char(0, i);
                match level_named(name) {
                    None => {
                        proof {
                            lemma_level_names();
                            assert forall|l: LogLevel| !is_log_line_of(raw@, l) by {
                                if is_log_line_of(raw@, l) {
                                    let k = name_len(l);
                                    assert(raw@.take(k + 1)[k] == '|');
                                    assert forall|j: int| 0 <= j < k implies raw@[j] != '|' by {
                                        assert(raw@.take(k + 1)[j] == level_name(l)[j]);
                                    }
                                    assert(i as int == k);
                                    assert(name@ =~= level_name(l)) by {
                                        assert forall|j: int| 0 <= j < k implies name@[j] == level_name(l)[j] by {
                                            assert(raw@.take(k + 1)[j] == raw@[j]);
                                        }
                                    }
                                }
                            }
                        }
                        None
                    }
                    Some(level) => {
                        let message = String::from_str(raw.substring_char(i + 1, n));
                        proof {
                            lemma_level_names();
                            assert(raw@.take(i + 1) =~= level_name(level) + seq!['|']);
                            assert(is_log_line_of(raw@, level));
                            let c = choose|l: LogLevel| #[trigger] is_log_line_of(raw@, l);
                            lemma_log_line_level_unique(raw@, c, level);
                            assert(message@ =~= raw@.skip(name_len(level) + 1));
                        }
                        Some(ParsedLog { level, message })
                    }
                }
            }
        }
    }

    /// Returns a short prefix for display (e.g. "ERR", "INF").
    pub fn prefix(&self) -> (s: &'static str)
        ensures
            s@ == level_prefix(self.level),
    {
        match self.level {
            LogLevel::Error => "ERR",
            LogLevel::Warn => "WRN",
            LogLevel::Info => "INF",
            LogLevel::Debug => "DBG",
            LogLevel::Trace => "TRC",
        }
    }
}

/// What the session writes, its listeners read back: a log line built from a
/// level and any message parses to that level and that message, whatever
/// the message holds (a `|` included).
pub proof fn law_log_line_round_trip(l: LogLevel, msg: Seq<char>)
    ensures
        parse_log_spec(log_line_text(l, msg)) == Some((l, msg)),
{
    let raw = log_line_text(l, msg);
    lemma_level_names();
    assert(raw.take(name_len(l) + 1) =~= level_name(l) + seq!['|']);
    assert(is_log_line_of(raw, l));
    let c = choose|x: LogLevel| #[trigger] is_log_line_of(raw, x);
    lemma_log_line_level_unique(raw, c, l);
    assert(raw.skip(name_len(l) + 1) =~= msg);
}


/// Controls how traffic is routed through the VPN tunnel.
#[derive(Debug, Clone)]
pub enum TunnelMode {
    /// All traffic (0.0.0.0/0) is routed through the tunnel.
    Full,
    /// User supplies their own vpnc-script. `None` passes no `--script` flag
    /// (openconnect falls back to its built-in defaults).
    Manual(Option<String>),
}

/// Everything a session needs to log in and start the tunnel.
#[derive(Clone)]
pub struct SessionConfig {
    pub url: String,
    pub domain: String,
    pub user_agent: String,
    pub headless: bool,
    pub no_auto_login: bool,
    pub email: Option<String>,
    pub openconnect_path: String,
    pub escalation_tool: Option<String>,
    pub interface_name: String,
    pub tunnel_mode: TunnelMode,
}

/// The part of a session that the session thread and its owner share: the
/// status, and the error that ended the last attempt.
pub struct SessionState {
    pub status: ConnectionStatus,
    pub last_error: Option<String>,
    pub error_category: Option<ErrorCategory>,
}

pub open spec fn is_terminal(s: ConnectionStatus) -> bool {
    s == ConnectionStatus::Disconnected || s == ConnectionStatus::Error
}

/// The status after a cancel request: an attempt in progress or an open
/// tunnel starts disconnecting; any other status stays.
pub open spec fn status_after_cancel(s: ConnectionStatus) -> ConnectionStatus {
    if s == ConnectionStatus::Connected || s == ConnectionStatus::Connecting {
        ConnectionStatus::Disconnecting
    } else {
        s
    }
}

/// The status after a failed login: a session that was asked to disconnect
/// ends disconnected, any other fails.
pub open spec fn status_after_login_error(s: ConnectionStatus) -> ConnectionStatus {
    if s == ConnectionStatus::Disconnecting {
        ConnectionStatus::Disconnected
    } else {
        ConnectionStatus::Error
    }
}

/// The message the session records when the tunnel never came up in time.
pub open spec fn tunnel_timeout_text() -> Seq<char> {
    "VPN tunnel failed to establish within timeout"@
}

/// The message the session records when openconnect died before the tunnel came up.
pub open spec fn process_exited_text() -> Seq<char> {
    "OpenConnect process exited before tunnel was established"@
}

/// The message the session records when openconnect survives the cleanup.
pub open spec fn stop_failed_text() -> Seq<char> {
    "Failed to stop OpenConnect. Please close it manually."@
}

/// `line` is present and reads `text`.
pub open spec fn line_is(line: Option<String>, text: Seq<char>) -> bool {
    line matches Some(l) && l@ == text
}

impl SessionState {
    pub fn new() -> (s: SessionState)
        ensures
            s.status == ConnectionStatus::Disconnected,
            s.last_error is None,
            s.error_category is None,
    {
        SessionState { status: ConnectionStatus::Disconnected, last_error: None, error_category: None }
    }

    /// Returns true if the session has reached a terminal state.
    pub fn is_finished(&self) -> (r: bool)
        ensures
            r == is_terminal(self.status),
    {
        self.status == ConnectionStatus::Disconnected || self.status == ConnectionStatus::Error
    }

    /// Starts a connection attempt if none is running: only a finished session
    /// (disconnected or failed) can start one; its old error is cleared.
    pub fn try_begin_connect(&mut self) -> (started: bool)
        ensures
            started == is_terminal(old(self).status),
            started ==> final(self).status == ConnectionStatus::Connecting
                && final(self).last_error is None && final(self).error_category is None,
            !started ==> final(self).status == old(self).status
                && final(self).last_error == old(self).last_error
                && final(self).error_category == old(self).error_category,
    {
        if self.status != ConnectionStatus::Disconnected && self.status != ConnectionStatus::Error {
            return false;
        }
        self.status = ConnectionStatus::Connecting;
        self.last_error = None;
        self.error_category = None;
        true
    }

    /// The status change of a cancel request.
    pub fn transition_to_disconnecting(&mut self)
        ensures
            final(self).status == status_after_cancel(old(self).status),
            final(self).last_error == old(self).last_error,
            final(self).error_category == old(self).error_category,
    {
        if self.status == ConnectionStatus::Connected || self.status == ConnectionStatus::Connecting {
            self.status = ConnectionStatus::Disconnecting;
        }
    }

    pub fn set_status(&mut self, status: ConnectionStatus)
        ensures
            final(self).status == status,
            final(self).last_error == old(self).last_error,
            final(self).error_category == old(self).error_category,
    {
        self.status = status;
    }

    /// Records a tunnel failure; returns the log line to send.
    pub fn set_conn_error(&mut self, msg: &str) -> (line: String)
        ensures
            final(self).status == ConnectionStatus::Error,
            line_is(final(self).last_error, msg@),
            final(self).error_category == Some(ErrorCategory::Connection),
            line@ == log_line_text(LogLevel::Error, msg@),
    {
        self.status = ConnectionStatus::Error;
        self.last_error = Some(String::from_str(msg));
        self.error_category = Some(ErrorCategory::Connection);
        format_log_line(LogLevel::Error, msg)
    }

    /// Records the end of a failed login. A failure that follows a cancel
    /// request (the session is disconnecting) just ends the session;
    /// otherwise the session fails with `message`, under `category` when the
    /// failure is a login error and as an authentication failure otherwise.
    /// Returns the log line to send, if any.
    pub fn handle_login_error(&mut self, message: &str, category: Option<ErrorCategory>) -> (line: Option<String>)
        ensures
            final(self).status == status_after_login_error(old(self).status),
            old(self).status == ConnectionStatus::Disconnecting ==> {
                &&& final(self).status == ConnectionStatus::Disconnected
                &&& final(self).last_error == old(self).last_error
                &&& final(self).error_category == old(self).error_category
                &&& line is None
            },
            old(self).status != ConnectionStatus::Disconnecting ==> {
                &&& final(self).status == ConnectionStatus::Error
                &&& line_is(final(self).last_error, message@)
                &&& final(self).error_category == Some(match category {
                    Some(c) => c,
                    None => ErrorCategory::Authentication,
                })
                &&& line_is(line, log_line_text(LogLevel::Error, message@))
            },
    {
        if self.status == ConnectionStatus::Disconnecting {
            self.status = ConnectionStatus::Disconnected;
            None
        } else {
            let c = match category {
                Some(c) => c,
                None => ErrorCategory::Authentication,
            };
            self.status = ConnectionStatus::Error;
            self.last_error = Some(String::from_str(message));
            self.error_category = Some(c);
            Some(format_log_line(LogLevel::Error, message))
        }
    }

    /// Starts reconnect attempt `attempt` (of at most `MAX_RECONNECTS`);
    /// returns the log line to send.
    pub fn begin_reconnect(&mut self, attempt: u32) -> (line: String)
        ensures
            final(self).status == ConnectionStatus::Connecting,
            final(self).last_error is None,
            final(self).error_category is None,
            line@ == log_line_text(LogLevel::Info,
                "Reconnecting... (attempt "@ + decimal(attempt as nat) + seq!['/', '3', ')']),
    {
        self.status = ConnectionStatus::Connecting;
        self.last_error = None;
        self.error_category = None;
        let mut msg = String::from_str("Reconnecting... (attempt ");
        push_decimal(&mut msg, attempt as u64, 0);
        push_char(&mut msg, '/');
        push_char(&mut msg, '3');
        push_char(&mut msg, ')');
        format_log_line(LogLevel::Info, msg.as_str())
    }
}

/// How many times a dropped tunnel is re-established before the session gives up.
pub const MAX_RECONNECTS: u32 = 3;

/// Whether the session thread starts another attempt: only when the tunnel
/// was up and dropped on its own (`dropped_after` holds how long it was up),
/// the user did not cancel, and fewer than `MAX_RECONNECTS` reconnects were made.
pub fn should_reconnect(cancelled: bool, dropped_after: Option<u64>, attempt: u32) -> (r: bool)
    ensures
        r == reconnect_allowed(cancelled, dropped_after, attempt),
{
    !cancelled && dropped_after.is_some() && attempt < MAX_RECONNECTS
}

pub open spec fn reconnect_allowed(cancelled: bool, dropped_after: Option<u64>, attempt: u32) -> bool {
    !cancelled && dropped_after is Some && attempt < MAX_RECONNECTS
}

/// Pause before a reconnect: `RECONNECT_DELAY_STEPS` waits of
/// `RECONNECT_DELAY_STEP_MS` each, the cancel request checked between them.
pub const RECONNECT_DELAY_STEPS: u32 = 30;
pub const RECONNECT_DELAY_STEP_MS: u64 = 100;

pub open spec fn exhausted_text() -> Seq<char> {
    "All 3 reconnect attempts exhausted. Giving up."@
}

/// The warning logged when a dropped tunnel is not re-established because
/// every reconnect attempt was used: present exactly when the tunnel dropped
/// on its own, the user did not cancel, and `MAX_RECONNECTS` attempts were made.
pub fn reconnects_exhausted(cancelled: bool, dropped_after: Option<u64>, attempt: u32) -> (r: Option<String>)
    ensures
        r is Some <==> (!cancelled && dropped_after is Some && attempt >= MAX_RECONNECTS),
        r is Some ==> line_is(r, log_line_text(LogLevel::Warn, exhausted_text())),
{
    if !cancelled && dropped_after.is_some() && attempt >= MAX_RECONNECTS {
        Some(format_log_line(LogLevel::Warn, "All 3 reconnect attempts exhausted. Giving up."))
    } else {
        None
    }
}

/// No matter how often the tunnel drops, a session makes at most
/// `MAX_RECONNECTS` reconnect attempts: attempts are numbered from 0 and
/// counted one up per reconnect, and no reconnect is allowed once the count
/// reaches `MAX_RECONNECTS`; a cancel request or a launch that never brought
/// the tunnel up allows none.
pub proof fn law_reconnects_bounded(cancelled: bool, dropped_after: Option<u64>, attempt: u32)
    ensures
        attempt >= MAX_RECONNECTS ==> !reconnect_allowed(cancelled, dropped_after, attempt),
        cancelled ==> !reconnect_allowed(cancelled, dropped_after, attempt),
        dropped_after is None ==> !reconnect_allowed(cancelled, dropped_after, attempt),
{
}

/// What one watchdog poll decided.
#[derive(Debug, Clone, Copy, PartialEq, Eq, Structural)]
pub enum WatchdogStep {
    /// The user cancelled: stop (killing openconnect if the session started it).
    Cancelled,
    /// The tunnel came up for the first time: record the connection.
    Connected,
    /// The tunnel is down after having been up: eligible for a reconnect.
    Dropped,
    /// The tunnel did not come up within the timeout.
    TimedOut,
    /// Openconnect exited before the tunnel came up.
    ProcessExited,
    /// Nothing changed: poll again.
    Wait,
}

/// The watchdog's view of one tunnel: whether it has been seen up.
pub struct Watchdog {
    pub connected_detected: bool,
}

/// The decision of one watchdog poll.
pub open spec fn watchdog_decision(
    connected_detected: bool,
    cancelled: bool,
    vpn_up: bool,
    timed_out: bool,
    process_alive: Option<bool>,
) -> WatchdogStep {
    if cancelled {
        WatchdogStep::Cancelled
    } else if vpn_up {
        if !connected_detected { WatchdogStep::Connected } else { WatchdogStep::Wait }
    } else if connected_detected {
        WatchdogStep::Dropped
    } else if timed_out {
        WatchdogStep::TimedOut
    } else if process_alive == Some(false) {
        WatchdogStep::ProcessExited
    } else {
        WatchdogStep::Wait
    }
}

impl Watchdog {
    /// A watchdog for a tunnel that openconnect is about to bring up
    /// (`has_process`), or for one that was already up when the session began.
    pub fn new(has_process: bool) -> (w: Watchdog)
        ensures
            w.connected_detected == !has_process,
    {
        Watchdog { connected_detected: !has_process }
    }

    /// One poll: `process_alive` is `None` when the session did not start the
    /// process (only consulted when the tunnel is neither up nor timed out).
    /// Updates the shared state as the session does and returns the log line
    /// to send, if any.
    pub fn step(
        &mut self,
        state: &mut SessionState,
        cancelled: bool,
        vpn_up: bool,
        timed_out: bool,
        process_alive: Option<bool>,
    ) -> (r: (WatchdogStep, Option<String>))
        ensures
            r.0 == watchdog_decision(old(self).connected_detected, cancelled, vpn_up, timed_out, process_alive),
            final(self).connected_detected == (old(self).connected_detected || r.0 == WatchdogStep::Connected),
            r.0 == WatchdogStep::Connected ==> final(state).status == ConnectionStatus::Connected
                && final(state).last_error == old(state).last_error
                && final(state).error_category == old(state).error_category
                && line_is(r.1, log_line_text(LogLevel::Info, "Connected."@)),
            r.0 == WatchdogStep::TimedOut ==> final(state).status == ConnectionStatus::Error
                && line_is(final(state).last_error, tunnel_timeout_text())
                && final(state).error_category == Some(ErrorCategory::Connection)
                && line_is(r.1, log_line_text(LogLevel::Error, tunnel_timeout_text())),
            r.0 == WatchdogStep::ProcessExited ==> final(state).status == ConnectionStatus::Error
                && line_is(final(state).last_error, process_exited_text())
                && final(state).error_category == Some(ErrorCategory::Connection)
                && line_is(r.1, log_line_text(LogLevel::Error, process_exited_text())),
            r.0 == WatchdogStep::Cancelled ==> (*final(state) == *old(state)
                && (line_is(r.1, log_line_text(LogLevel::Info, "Disconnecting..."@))
                    <==> process_alive is Some)
                && (process_alive is None ==> r.1 is None)),
            (r.0 == WatchdogStep::Dropped || r.0 == WatchdogStep::Wait) ==> *final(state) == *old(state) && r.1 is None,
    {
        if cancelled {
            if process_alive.is_some() {
                return (WatchdogStep::Cancelled, Some(format_log_line(LogLevel::Info, "Disconnecting...")));
            }
            return (WatchdogStep::Cancelled, None);
        }
        if vpn_up {
            if !self.connected_detected {
                self.connected_detected = true;
                state.status = ConnectionStatus::Connected;
                return (WatchdogStep::Connected, Some(format_log_line(LogLevel::Info, "Connected.")));
            }
            (WatchdogStep::Wait, None)
        } else if self.connected_detected {
            (WatchdogStep::Dropped, None)
        } else if timed_out {
            let line = state.set_conn_error("VPN tunnel failed to establish within timeout");
            (WatchdogStep::TimedOut, Some(line))
        } else if process_alive == Some(false) {
            let line = state.set_conn_error("OpenConnect process exited before tunnel was established");
            (WatchdogStep::ProcessExited, Some(line))
        } else {
            (WatchdogStep::Wait, None)
        }
    }
}

/// A tunnel is reported as dropped (and so may be re-established) only after
/// the watchdog has seen it up; a cancel request always wins.
pub proof fn law_drop_needs_connection(
    connected_detected: bool,
    cancelled: bool,
    vpn_up: bool,
    timed_out: bool,
    process_alive: Option<bool>,
)
    ensures
        watchdog_decision(connected_detected, cancelled, vpn_up, timed_out, process_alive) == WatchdogStep::Dropped
            ==> connected_detected && !cancelled,
        cancelled ==> watchdog_decision(connected_detected, cancelled, vpn_up, timed_out, process_alive)
            == WatchdogStep::Cancelled,
{
}

/// Once the watchdog has seen the tunnel up, a poll that finds it down (and
/// no cancel request) reports a drop, whatever the timeout says; a timeout is
/// reported only for a tunnel that was never seen up, and a tunnel seen up for
/// the first time is reported connected exactly once.
pub proof fn law_seen_tunnel_drops_not_times_out(
    connected_detected: bool,
    cancelled: bool,
    vpn_up: bool,
    timed_out: bool,
    process_alive: Option<bool>,
)
    ensures
        connected_detected && !cancelled && !vpn_up
            ==> watchdog_decision(connected_detected, cancelled, vpn_up, timed_out, process_alive)
                == WatchdogStep::Dropped,
        watchdog_decision(connected_detected, cancelled, vpn_up, timed_out, process_alive) == WatchdogStep::TimedOut
            <==> (!connected_detected && !cancelled && !vpn_up && timed_out),
        watchdog_decision(connected_detected, cancelled, vpn_up, timed_out, process_alive)
            == WatchdogStep::ProcessExited
            <==> (!connected_detected && !cancelled && !vpn_up && !timed_out && process_alive == Some(false)),
        watchdog_decision(connected_detected, cancelled, vpn_up, timed_out, process_alive) == WatchdogStep::Connected
            <==> (!connected_detected && !cancelled && vpn_up),
        watchdog_decision(true, cancelled, vpn_up, timed_out, process_alive) != WatchdogStep::Connected,
{
}

/// The history event for a tunnel that just came up: `Reconnected` with the
/// length of the previous segment on a reconnect, `Connected` otherwise.
pub fn connected_event(is_reconnect: bool, prev_duration: Option<u64>, timestamp_unix: u64) -> (e: ConnectionEvent)
    ensures
        e.kind == (if is_reconnect { EventKind::Reconnected } else { EventKind::Connected }),
        e.timestamp_unix == timestamp_unix,
        e.duration_secs == prev_duration,
        e.message is None,
{
    let kind = if is_reconnect { EventKind::Reconnected } else { EventKind::Connected };
    let mut event = ConnectionEvent::at(kind, timestamp_unix);
    event.duration_secs = prev_duration;
    event
}

/// The message of a Disconnected history event after `attempts` reconnects.
pub open spec fn reconnect_count_text(attempts: u32) -> Seq<char> {
    "Reconnect attempts: "@ + decimal(attempts as nat)
}

/// Ends a session thread. `still_running` says whether openconnect survived
/// the kill; `connected_for` is how long the tunnel was last up (`None` if it
/// never came up); `reconnect_attempts` how many reconnects the session made.
/// Returns the history event to record and the log line to send.
pub fn cleanup(
    state: &mut SessionState,
    still_running: bool,
    connected_for: Option<u64>,
    reconnect_attempts: u32,
    timestamp_unix: u64,
) -> (r: (ConnectionEvent, Option<String>))
    ensures
        r.0.timestamp_unix == timestamp_unix,
        still_running ==> {
            &&& final(state).status == ConnectionStatus::Error
            &&& line_is(final(state).last_error, stop_failed_text())
            &&& final(state).error_category == Some(ErrorCategory::Connection)
            &&& r.0.kind == EventKind::Error
            &&& r.0.duration_secs == connected_for
            &&& line_is(r.0.message, stop_failed_text())
            &&& line_is(r.1, log_line_text(LogLevel::Error, stop_failed_text()))
        },
        !still_running && connected_for is Some ==> {
            &&& final(state).status == ConnectionStatus::Disconnected
            &&& final(state).last_error == old(state).last_error
            &&& r.0.kind == EventKind::Disconnected
            &&& r.0.duration_secs == connected_for
            &&& (r.0.message is Some <==> reconnect_attempts > 0)
            &&& reconnect_attempts > 0 ==> line_is(r.0.message, reconnect_count_text(reconnect_attempts))
            &&& line_is(r.1, log_line_text(LogLevel::Info, "Disconnected."@))
        },
        !still_running && connected_for is None && old(state).status == ConnectionStatus::Error ==> {
            &&& *final(state) == *old(state)
            &&& r.0.kind == EventKind::Error
            &&& r.0.duration_secs is None
            &&& r.0.message == old(state).last_error
            &&& r.1 is None
        },
        !still_running && connected_for is None && old(state).status != ConnectionStatus::Error ==> {
            &&& final(state).status == ConnectionStatus::Disconnected
            &&& final(state).last_error == old(state).last_error
            &&& r.0.kind == EventKind::Cancelled
            &&& r.0.duration_secs is None
            &&& r.0.message is None
            &&& line_is(r.1, log_line_text(LogLevel::Info, "Cancelled."@))
        },
{
    if still_running {
        let msg = "Failed to stop OpenConnect. Please close it manually.";
        let line = state.set_conn_error(msg);
        let mut event = ConnectionEvent::at(EventKind::Error, timestamp_unix);
        event.duration_secs = connected_for;
        event.message = Some(String::from_str(msg));
        (event, Some(line))
    } else if connected_for.is_some() {
        state.status = ConnectionStatus::Disconnected;
        let mut event = ConnectionEvent::at(EventKind::Disconnected, timestamp_unix);
        event.duration_secs = connected_for;
        if reconnect_attempts > 0 {
            let mut msg = String::from_str("Reconnect attempts: ");
            push_decimal(&mut msg, reconnect_attempts as u64, 0);
            assert(msg@ =~= reconnect_count_text(reconnect_attempts));
            event.message = Some(msg);
        }
        (event, Some(format_log_line(LogLevel::Info, "Disconnected.")))
    } else if state.status == ConnectionStatus::Error {
        let mut event = ConnectionEvent::at(EventKind::Error, timestamp_unix);
        event.message = state.last_error.clone();
        (event, None)
    } else {
        state.status = ConnectionStatus::Disconnected;
        let event = ConnectionEvent::at(EventKind::Cancelled, timestamp_unix);
        (event, Some(format_log_line(LogLevel::Info, "Cancelled.")))
    }
}

/// A session thread always leaves the session finished: whatever happened,
/// after `cleanup` the status is `Disconnected` or `Error`, so the owner's
/// wait for `is_finished` ends and a new `connect` is accepted.
pub proof fn law_cleanup_finishes(before: ConnectionStatus, still_running: bool, connected: bool)
    ensures
        is_terminal(cleanup_status(before, still_running, connected)),
{
}

/// The status `cleanup` leaves.
pub open spec fn cleanup_status(before: ConnectionStatus, still_running: bool, connected: bool) -> ConnectionStatus {
    if still_running {
        ConnectionStatus::Error
    } else if connected {
        ConnectionStatus::Disconnected
    } else if before == ConnectionStatus::Error {
        ConnectionStatus::Error
    } else {
        ConnectionStatus::Disconnected
    }
}

/// A cancel request during login is not reported as a failure: when the
/// login then fails, the session ends disconnected with no new error.
pub proof fn law_cancelled_login_is_not_an_error(s: ConnectionStatus)
    requires
        s == ConnectionStatus::Connecting || s == ConnectionStatus::Connected,
    ensures
        status_after_login_error(status_after_cancel(s)) == ConnectionStatus::Disconnected,
        status_after_login_error(s) == ConnectionStatus::Error,
{
}


/// The prompt for the escalation tool's password.
pub open spec fn sudo_prompt_text(tool: Seq<char>, wrong_password: bool) -> Seq<char> {
    if wrong_password {
        "Wrong password \u{2014} please try again. Enter your "@ + tool + " password to start the VPN tunnel"@
    } else {
        "Enter your "@ + tool + " password to start the VPN tunnel"@
    }
}

/// What to do with an answer to the password prompt.
#[derive(Debug, Clone)]
pub enum SudoAnswer {
    /// The prompt was dismissed or the user cancelled: stop the session.
    Cancel,
    /// Check this password with the escalation tool.
    Verify(String),
}

/// What to do once the escalation tool judged a password.
#[derive(Debug, Clone)]
pub enum SudoVerdict {
    /// Use this password for openconnect.
    Accept(String),
    /// The password was wrong: prompt again.
    Retry,
}

/// The dialogue that asks for the escalation tool's password until it is
/// accepted or the user gives up.
pub struct SudoPrompt {
    pub tool: String,
    pub wrong_password: bool,
}

impl SudoPrompt {
    pub fn new(tool: &str) -> (p: SudoPrompt)
        ensures
            p.tool@ == tool@,
            !p.wrong_password,
    {
        SudoPrompt { tool: String::from_str(tool), wrong_password: false }
    }

    /// The text to prompt with, and the log line announcing the prompt.
    pub fn prompt(&self) -> (r: (String, String))
        ensures
            r.0@ == sudo_prompt_text(self.tool@, self.wrong_password),
            r.1@ == log_line_text(LogLevel::Info, self.tool@ + " requires a password. Prompting..."@),
    {
        let mut text = if self.wrong_password {
            String::from_str("Wrong password \u{2014} please try again. Enter your ")
        } else {
            String::from_str("Enter your ")
        };
        push_str(&mut text, self.tool.as_str());
        push_str(&mut text, " password to start the VPN tunnel");
        let mut notice = self.tool.clone();
        push_str(&mut notice, " requires a password. Prompting...");
        let line = format_log_line(LogLevel::Info, notice.as_str());
        (text, line)
    }

    /// An answer to the prompt: `None` when the prompt was dismissed; an empty
    /// answer after a cancel request also stops.
    pub fn on_answer(&self, entered: Option<String>, cancelled: bool) -> (r: SudoAnswer)
        ensures
            match entered {
                None => r is Cancel,
                Some(pw) => if pw@.len() == 0 && cancelled { r is Cancel } else { r matches SudoAnswer::Verify(p) && p == pw },
            },
    {
        match entered {
            None => SudoAnswer::Cancel,
            Some(pw) => {
                if pw.as_str().unicode_len() == 0 && cancelled {
                    SudoAnswer::Cancel
                } else {
                    SudoAnswer::Verify(pw)
                }
            }
        }
    }

    /// The tool's judgement of `password`: `Some(true)` accepted, `Some(false)`
    /// rejected, `None` could not be checked (the tool then decides itself).
    pub fn on_verdict(&mut self, password: String, verdict: Option<bool>) -> (r: SudoVerdict)
        ensures
            verdict == Some(false) ==> r is Retry && final(self).wrong_password,
            verdict != Some(false) ==> (r matches SudoVerdict::Accept(p) && p == password)
                && final(self).wrong_password == old(self).wrong_password,
            final(self).tool == old(self).tool,
    {
        match verdict {
            Some(false) => {
                self.wrong_password = true;
                SudoVerdict::Retry
            }
            _ => SudoVerdict::Accept(password),
        }
    }
}

/// A password is asked for only when an escalation tool was found, it needs
/// one now, and no askpass helper can ask instead.
pub fn needs_sudo_password(tool_found: bool, tool_requires_password: bool, askpass_found: bool) -> (r: bool)
    ensures
        r == (tool_found && tool_requires_password && !askpass_found),
{
    tool_found && tool_requires_password && !askpass_found
}

} // verus!
