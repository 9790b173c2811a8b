//! The state decisions of the graphical front end: settings defaults, login
//! modes, the console log it keeps, window visibility, and how it follows a
//! session's status.

use vstd::prelude::*;
use vstd::string::*;
use crate::openconnect::{opt_string_view, strings_view};
use crate::session::{
    ConnectionStatus, LogLevel, ParsedLog, SessionConfig, TunnelMode, level_prefix, parse_log_spec,
};
use crate::error::ErrorCategory;
use crate::text::{contains_str, contains_text, push_char, push_str, starts_with_str};

verus! {

/// Whether the window hides itself again after a prompt was answered, when
/// the saved settings do not say.
pub fn default_auto_hide() -> (r: bool)
    ensures
        r,
{
    true
}

/// `(headless, no_auto_login)` for a login mode: 0 Full Automatic,
/// 1 Visual Automatic, anything else Manual.
pub fn login_mode_flags(mode: i64) -> (r: (bool, bool))
    ensures
        r == (if mode == 0 { (true, false) } else if mode == 1 { (false, false) } else { (false, true) }),
{
    if mode == 0 {
        (true, false)
    } else if mode == 1 {
        (false, false)
    } else {
        (false, true)
    }
}

pub open spec fn login_mode_text(mode: i64) -> Seq<char> {
    if mode == 0 {
        "Full Automatic (Headless + Auto-Login)"@
    } else if mode == 1 {
        "Visual Automatic (Browser + Auto-Login)"@
    } else {
        "Manual Mode (Browser + Manual Entry)"@
    }
}

pub fn login_mode_name(mode: i64) -> (r: &'static str)
    ensures
        r@ == login_mode_text(mode),
{
    if mode == 0 {
        "Full Automatic (Headless + Auto-Login)"
    } else if mode == 1 {
        "Visual Automatic (Browser + Auto-Login)"
    } else {
        "Manual Mode (Browser + Manual Entry)"
    }
}

pub open spec fn log_level_text(level: i64) -> Seq<char> {
    if level == 0 { "Off"@ }
    else if level == 1 { "Error"@ }
    else if level == 2 { "Warn"@ }
    else if level == 4 { "Debug"@ }
    else if level == 5 { "Trace"@ }
    else { "Info"@ }
}

/// The name of a log-level slider position (0 Off … 5 Trace; Info otherwise).
pub fn log_level_name(level: i64) -> (r: &'static str)
    ensures
        r@ == log_level_text(level),
{
    if level == 0 { "Off" }
    else if level == 1 { "Error" }
    else if level == 2 { "Warn" }
    else if level == 4 { "Debug" }
    else if level == 5 { "Trace" }
    else { "Info" }
}

/// The rank of a level against a level filter (Error 1 … Trace 5; a filter
/// of `n` shows the levels of rank at most `n`).
pub open spec fn level_rank(l: LogLevel) -> u8 {
    match l {
        LogLevel::Error => 1,
        LogLevel::Warn => 2,
        LogLevel::Info => 3,
        LogLevel::Debug => 4,
        LogLevel::Trace => 5,
    }
}

pub fn rank_of(l: LogLevel) -> (r: u8)
    ensures
        r == level_rank(l),
{
    match l {
        LogLevel::Error => 1,
        LogLevel::Warn => 2,
        LogLevel::Info => 3,
        LogLevel::Debug => 4,
        LogLevel::Trace => 5,
    }
}

/// The levels from the most severe to the most verbose.
pub open spec fn severity_order() -> Seq<LogLevel> {
    seq![LogLevel::Error, LogLevel::Warn, LogLevel::Info, LogLevel::Debug, LogLevel::Trace]
}

/// Ranks follow severity: the `i`-th level from the most severe has rank
/// `i + 1`, so ranks rise strictly from Error to Trace, and a filter of `n`
/// lets through exactly the `n` most severe levels.
pub proof fn law_rank_follows_severity(l: LogLevel, n: u8)
    ensures
        forall|i: int| 0 <= i < 5 ==> #[trigger] level_rank(severity_order()[i]) == i + 1,
        forall|i: int, j: int| 0 <= i < j < 5
            ==> level_rank(#[trigger] severity_order()[i]) < level_rank(#[trigger] severity_order()[j]),
        level_rank(l) <= n <==> exists|i: int| 0 <= i < n && i < 5 && #[trigger] severity_order()[i] == l,
{
    let o = severity_order();
    assert(o[0] == LogLevel::Error && o[1] == LogLevel::Warn && o[2] == LogLevel::Info
        && o[3] == LogLevel::Debug && o[4] == LogLevel::Trace);
    let k: int = level_rank(l) - 1;
    assert(0 <= k < 5 && o[k] == l);
    if exists|i: int| 0 <= i < n && i < 5 && #[trigger] o[i] == l {
        let i = choose|i: int| 0 <= i < n && i < 5 && #[trigger] o[i] == l;
        assert(i == k);
    }
}

/// The session configuration the GUI connects with.
pub fn gui_session_config(
    url: &str,
    domain: &str,
    email: &str,
    escalation_tool: &str,
    openconnect_path: &str,
    login_mode: i64,
    tunnel_mode: TunnelMode,
) -> (c: SessionConfig)
    ensures
        c.url@ == url@,
        c.domain@ == domain@,
        c.user_agent@ == "Mozilla/5.0"@,
        (c.headless, c.no_auto_login) == (if login_mode == 0 { (true, false) }
            else if login_mode == 1 { (false, false) } else { (false, true) }),
        email@.len() == 0 ==> c.email is None,
        email@.len() > 0 ==> (c.email matches Some(e) && e@ == email@),
        openconnect_path@.len() == 0 ==> c.openconnect_path@ == "openconnect"@,
        openconnect_path@.len() > 0 ==> c.openconnect_path@ == openconnect_path@,
        c.escalation_tool matches Some(t) && t@ == escalation_tool@,
        c.interface_name@ == "kuvpn0"@,
        c.tunnel_mode == tunnel_mode,
{
    let (headless, no_auto_login) = login_mode_flags(login_mode);
    SessionConfig {
        url: String::from_str(url),
        domain: String::from_str(domain),
        user_agent: String::from_str("Mozilla/5.0"),
        headless,
        no_auto_login,
        email: if email.unicode_len() == 0 { None } else { Some(String::from_str(email)) },
        openconnect_path: if openconnect_path.unicode_len() == 0 {
            String::from_str("openconnect")
        } else {
            String::from_str(openconnect_path)
        },
        escalation_tool: Some(String::from_str(escalation_tool)),
        interface_name: String::from_str("kuvpn0"),
        tunnel_mode,
    }
}

/// Console lines the GUI keeps; older ones are dropped.
pub const MAX_LOG_LINES: usize = 500;

/// What the window does on a visibility toggle.
#[derive(Debug, Clone, Copy, PartialEq, Eq, Structural)]
pub enum VisibilityAction {
    /// A close is in flight: nothing.
    Ignore,
    /// Quit the application.
    Exit,
    /// Close the window and keep running in the tray.
    Hide,
    /// Open the window.
    Show,
}

/// The text the GUI shows after Full Auto mode failed repeatedly.
pub open spec fn automation_warning_text() -> Seq<char> {
    "Full Auto mode encountered repeated issues.\n\nSuggestions:\n\u{2022} Switch to Manual mode to complete login yourself\n\u{2022} Use Visual Auto mode and record a screen video for bug reporting\n\u{2022} Try clearing session data (Wipe Session button)"@
}

/// The console line of a parsed log: `[PFX] message`.
pub open spec fn console_line(l: LogLevel, msg: Seq<char>) -> Seq<char> {
    seq!['['] + level_prefix(l) + seq![']', ' '] + msg
}

/// The console after appending `line`: the oldest line is dropped when the
/// console then holds more than `MAX_LOG_LINES`.
pub open spec fn console_after(logs: Seq<Seq<char>>, line: Seq<char>) -> Seq<Seq<char>> {
    if logs.len() + 1 > MAX_LOG_LINES {
        logs.push(line).drop_first()
    } else {
        logs.push(line)
    }
}

/// `a` and `b` agree on everything but the console and the messages.
pub open spec fn same_window_and_session(a: GuiModel, b: GuiModel) -> bool {
    &&& a.status == b.status
    &&& a.mfa_info == b.mfa_info
    &&& a.automation_warning == b.automation_warning
    &&& a.is_visible == b.is_visible
    &&& a.window_close_pending == b.window_close_pending
    &&& a.close_to_tray == b.close_to_tray
    &&& a.last_tray_click_ms == b.last_tray_click_ms
    &&& a.connection_start_ms == b.connection_start_ms
    &&& a.pending_prompt == b.pending_prompt
    &&& a.current_input == b.current_input
}

/// `a` and `b` agree on everything but the window's visibility.
pub open spec fn same_besides_window(a: GuiModel, b: GuiModel) -> bool {
    &&& a.status == b.status
    &&& a.logs@ == b.logs@
    &&& a.status_message == b.status_message
    &&& a.error_message == b.error_message
    &&& a.mfa_info == b.mfa_info
    &&& a.automation_warning == b.automation_warning
    &&& a.close_to_tray == b.close_to_tray
    &&& a.last_tray_click_ms == b.last_tray_click_ms
    &&& a.connection_start_ms == b.connection_start_ms
    &&& a.pending_prompt == b.pending_prompt
    &&& a.current_input == b.current_input
}

/// The heading of the status area.
pub open spec fn status_title_text(status: ConnectionStatus, category: Option<ErrorCategory>) -> Seq<char> {
    match status {
        ConnectionStatus::Disconnected => "Public Access"@,
        ConnectionStatus::Connecting => "Joining Campus..."@,
        ConnectionStatus::Connected => "KU Network Active"@,
        ConnectionStatus::Disconnecting => "Disconnecting..."@,
        ConnectionStatus::Error => match category {
            Some(ErrorCategory::Authentication) => "Authentication Error"@,
            Some(ErrorCategory::Connection) => "Connection Error"@,
            Some(ErrorCategory::System) => "System Error"@,
            None => "Error"@,
        },
    }
}

/// The heading of the status area for a status (and, after a failure, the
/// category of the error).
pub fn status_title(status: ConnectionStatus, category: Option<ErrorCategory>) -> (r: &'static str)
    ensures
        r@ == status_title_text(status, category),
{
    match status {
        ConnectionStatus::Disconnected => "Public Access",
        ConnectionStatus::Connecting => "Joining Campus...",
        ConnectionStatus::Connected => "KU Network Active",
        ConnectionStatus::Disconnecting => "Disconnecting...",
        ConnectionStatus::Error => match category {
            Some(ErrorCategory::Authentication) => "Authentication Error",
            Some(ErrorCategory::Connection) => "Connection Error",
            Some(ErrorCategory::System) => "System Error",
            None => "Error",
        },
    }
}

/// The main button of the window.
#[derive(Debug, Clone, Copy, PartialEq, Eq, Structural)]
pub enum ActionButton {
    /// "JOIN NETWORK": start a session.
    Join,
    /// "CANCEL": stop a connection attempt.
    Cancel,
    /// "DISCONNECT": stop the session.
    Disconnect,
}

/// The button a status shows: join when finished, cancel while connecting,
/// disconnect otherwise.
pub fn action_button(status: ConnectionStatus) -> (b: ActionButton)
    ensures
        b == (if status == ConnectionStatus::Disconnected || status == ConnectionStatus::Error {
            ActionButton::Join
        } else if status == ConnectionStatus::Connecting {
            ActionButton::Cancel
        } else {
            ActionButton::Disconnect
        }),
{
    match status {
        ConnectionStatus::Disconnected | ConnectionStatus::Error => ActionButton::Join,
        ConnectionStatus::Connecting => ActionButton::Cancel,
        _ => ActionButton::Disconnect,
    }
}

pub open spec fn action_label_text(b: ActionButton) -> Seq<char> {
    match b {
        ActionButton::Join => "JOIN NETWORK"@,
        ActionButton::Cancel => "CANCEL"@,
        ActionButton::Disconnect => "DISCONNECT"@,
    }
}

impl ActionButton {
    pub fn label(self) -> (r: &'static str)
        ensures
            r@ == action_label_text(self),
    {
        match self {
            ActionButton::Join => "JOIN NETWORK",
            ActionButton::Cancel => "CANCEL",
            ActionButton::Disconnect => "DISCONNECT",
        }
    }
}

/// How prominently the console shows a line.
#[derive(Debug, Clone, Copy, PartialEq, Eq, Structural)]
pub enum LineTone {
    Danger,
    Warning,
    Muted,
    Disabled,
}

pub open spec fn has_prefix(s: Seq<char>, p: Seq<char>) -> bool {
    p.len() <= s.len() && s.take(p.len() as int) == p
}

/// The tone of a console line, by its tag: errors and `[!]` stand out,
/// warnings are marked, debug and trace lines recede, the rest is muted.
pub open spec fn line_tone_spec(line: Seq<char>) -> LineTone {
    if has_prefix(line, "[ERR]"@) || has_prefix(line, "[!]"@) {
        LineTone::Danger
    } else if has_prefix(line, "[WRN]"@) {
        LineTone::Warning
    } else if has_prefix(line, "[DBG]"@) || has_prefix(line, "[TRC]"@) {
        LineTone::Disabled
    } else {
        LineTone::Muted
    }
}

pub fn line_tone(line: &str) -> (t: LineTone)
    ensures
        t == line_tone_spec(line@),
{
    if starts_with_str(line, "[ERR]") || starts_with_str(line, "[!]") {
        LineTone::Danger
    } else if starts_with_str(line, "[WRN]") {
        LineTone::Warning
    } else if starts_with_str(line, "[DBG]") || starts_with_str(line, "[TRC]") {
        LineTone::Disabled
    } else {
        LineTone::Muted
    }
}

/// The line under the status heading.
pub open spec fn status_subtitle_text(
    status: ConnectionStatus,
    automation_warning: bool,
    error_message: Option<Seq<char>>,
    status_message: Seq<char>,
) -> Seq<char> {
    match status {
        ConnectionStatus::Connected => "Internal Resources Available"@,
        ConnectionStatus::Error => if automation_warning {
            "See details below"@
        } else {
            match error_message {
                Some(m) => m,
                None => "Check console for details"@,
            }
        },
        ConnectionStatus::Connecting | ConnectionStatus::Disconnecting => status_message,
        ConnectionStatus::Disconnected => "Koc University Access Restricted"@,
    }
}

/// The title of the input dialog for a prompt.
pub open spec fn prompt_title_text(is_password: bool, msg: Seq<char>) -> Seq<char> {
    if is_password {
        if contains_text(msg, "password to start the VPN tunnel"@) {
            "System Password"@
        } else {
            "KU Account"@
        }
    } else {
        "KU Authentication"@
    }
}

/// The title of the input dialog: the escalation-tool password, the KU
/// account password, or any other KU sign-in input.
pub fn prompt_title(is_password: bool, msg: &str) -> (r: &'static str)
    ensures
        r@ == prompt_title_text(is_password, msg@),
{
    if is_password {
        if contains_str(msg, "password to start the VPN tunnel") {
            "System Password"
        } else {
            "KU Account"
        }
    } else {
        "KU Authentication"
    }
}

/// The GUI's view of the connection, its console and its window.
pub struct GuiModel {
    pub status: ConnectionStatus,
    pub logs: Vec<String>,
    pub status_message: String,
    pub error_message: Option<String>,
    pub mfa_info: Option<String>,
    pub automation_warning: Option<String>,
    pub is_visible: bool,
    pub window_close_pending: bool,
    pub close_to_tray: bool,
    pub last_tray_click_ms: Option<u64>,
    /// When the current connection attempt started (milliseconds, as the
    /// front end's clock reads), while a session runs.
    pub connection_start_ms: Option<u64>,
    /// The prompt the input dialog shows, and whether it asks for a password.
    pub pending_prompt: Option<(String, bool)>,
    /// What the user has typed into the input dialog.
    pub current_input: String,
}

impl GuiModel {
    pub fn new(close_to_tray: bool) -> (m: GuiModel)
        ensures
            m.status == ConnectionStatus::Disconnected,
            strings_view(m.logs@) == seq!["Ready for secure campus access."@],
            m.status_message@ == "Ready to connect"@,
            m.error_message is None,
            m.mfa_info is None,
            m.automation_warning is None,
            !m.is_visible,
            !m.window_close_pending,
            m.close_to_tray == close_to_tray,
            m.last_tray_click_ms is None,
            m.connection_start_ms is None,
            m.pending_prompt is None,
            m.current_input@.len() == 0,
    {
        let mut logs: Vec<String> = Vec::new();
        logs.push(String::from_str("Ready for secure campus access."));
        assert(strings_view(logs@) =~= seq!["Ready for secure campus access."@]);
        GuiModel {
            status: ConnectionStatus::Disconnected,
            logs,
            status_message: String::from_str("Ready to connect"),
            error_message: None,
            mfa_info: None,
            automation_warning: None,
            is_visible: false,
            window_close_pending: false,
            close_to_tray,
            last_tray_click_ms: None,
            connection_start_ms: None,
            pending_prompt: None,
            current_input: String::new(),
        }
    }

    /// The line under the status heading.
    pub fn status_subtitle(&self) -> (r: String)
        ensures
            r@ == status_subtitle_text(self.status, self.automation_warning is Some,
                opt_string_view(self.error_message), self.status_message@),
    {
        match self.status {
            ConnectionStatus::Connected => String::from_str("Internal Resources Available"),
            ConnectionStatus::Error => {
                if self.automation_warning.is_some() {
                    String::from_str("See details below")
                } else {
                    match &self.error_message {
                        Some(m) => m.clone(),
                        None => String::from_str("Check console for details"),
                    }
                }
            },
            ConnectionStatus::Connecting | ConnectionStatus::Disconnecting => self.status_message.clone(),
            ConnectionStatus::Disconnected => String::from_str("Koc University Access Restricted"),
        }
    }

    /// Appends a console line, dropping the oldest when the console then
    /// holds more than `MAX_LOG_LINES`.
    pub fn push_log(&mut self, line: String)
        ensures
            strings_view(final(self).logs@) == console_after(strings_view(old(self).logs@), line@),
            old(self).logs.len() < MAX_LOG_LINES ==> final(self).logs@ == old(self).logs@.push(line),
            old(self).logs.len() >= MAX_LOG_LINES ==> final(self).logs@ == old(self).logs@.push(line).drop_first(),
            final(self).status_message == old(self).status_message,
            final(self).error_message == old(self).error_message,
            same_window_and_session(*final(self), *old(self)),
    {
        let ghost before = self.logs@;
        self.logs.push(line);
        assert(strings_view(before.push(line)) =~= strings_view(before).push(line@));
        if self.logs.len() > MAX_LOG_LINES {
            self.logs.remove(0);
            assert(self.logs@ =~= before.push(line).drop_first());
            assert(strings_view(before.push(line).drop_first()) =~= strings_view(before.push(line)).drop_first());
        }
    }

    /// A log line arrived from the session. An error becomes the error
    /// message, a warning or information the status message; the line goes
    /// to the console when its level passes `user_filter` (0 Off … 5 Trace).
    /// Lines that do not parse are ignored.
    pub fn on_log_appended(&mut self, raw: &str, user_filter: u8)
        ensures
            same_window_and_session(*final(self), *old(self)),
            match parse_log_spec(raw@) {
                None => final(self).logs@ == old(self).logs@
                    && final(self).error_message == old(self).error_message
                    && final(self).status_message == old(self).status_message,
                Some((l, m)) => {
                    &&& l == LogLevel::Error ==> (final(self).error_message matches Some(e) && e@ == m)
                    &&& l != LogLevel::Error ==> final(self).error_message == old(self).error_message
                    &&& (l == LogLevel::Warn || l == LogLevel::Info) ==> final(self).status_message@ == m
                    &&& !(l == LogLevel::Warn || l == LogLevel::Info) ==> final(self).status_message == old(self).status_message
                    &&& level_rank(l) > user_filter ==> final(self).logs@ == old(self).logs@
                    &&& level_rank(l) <= user_filter ==> strings_view(final(self).logs@)
                        == console_after(strings_view(old(self).logs@), console_line(l, m))
                },
            },
    {
        match ParsedLog::parse(raw) {
            None => {}
            Some(parsed) => {
                match parsed.level {
                    LogLevel::Error => {
                        self.error_message = Some(parsed.message.clone());
                    }
                    LogLevel::Warn | LogLevel::Info => {
                        self.status_message = parsed.message.clone();
                    }
                    _ => {}
                }
                if rank_of(parsed.level) <= user_filter {
                    let mut line = String::new();
                    push_char(&mut line, '[');
                    push_str(&mut line, parsed.prefix());
                    push_char(&mut line, ']');
                    push_char(&mut line, ' ');
                    push_str(&mut line, parsed.message.as_str());
                    assert(line@ =~= console_line(parsed.level, parsed.message@));
                    self.push_log(line);
                }
            }
        }
    }

    /// Connect was pressed at `now_ms`: only a finished session starts a new
    /// one, with a fresh console, no old messages and its clock started.
    pub fn on_connect_pressed(&mut self, now_ms: u64) -> (started: bool)
        ensures
            started == (old(self).status == ConnectionStatus::Disconnected
                || old(self).status == ConnectionStatus::Error),
            started ==> final(self).status == ConnectionStatus::Connecting
                && final(self).logs@.len() == 0
                && final(self).error_message is None
                && final(self).automation_warning is None
                && final(self).status_message@ == "Initializing..."@,
            started ==> final(self).mfa_info == old(self).mfa_info
                && final(self).is_visible == old(self).is_visible
                && final(self).window_close_pending == old(self).window_close_pending
                && final(self).close_to_tray == old(self).close_to_tray
                && final(self).last_tray_click_ms == old(self).last_tray_click_ms
                && final(self).connection_start_ms == Some(now_ms)
                && final(self).pending_prompt == old(self).pending_prompt
                && final(self).current_input == old(self).current_input,
            !started ==> same_window_and_session(*final(self), *old(self))
                && final(self).logs@ == old(self).logs@
                && final(self).status_message == old(self).status_message
                && final(self).error_message == old(self).error_message,
    {
        if self.status == ConnectionStatus::Disconnected || self.status == ConnectionStatus::Error {
            self.automation_warning = None;
            self.error_message = None;
            self.status_message = String::from_str("Initializing...");
            self.status = ConnectionStatus::Connecting;
            self.connection_start_ms = Some(now_ms);
            self.logs.clear();
            true
        } else {
            false
        }
    }

    /// The session thread ended, with its last error if it failed.
    pub fn on_connection_finished(&mut self, err: Option<String>)
        ensures
            final(self).status == (if err is Some { ConnectionStatus::Error } else { ConnectionStatus::Disconnected }),
            final(self).mfa_info is None,
            final(self).connection_start_ms is None,
            final(self).pending_prompt == old(self).pending_prompt,
            final(self).current_input == old(self).current_input,
            final(self).status_message == old(self).status_message,
            final(self).is_visible == old(self).is_visible,
            final(self).window_close_pending == old(self).window_close_pending,
            final(self).close_to_tray == old(self).close_to_tray,
            final(self).last_tray_click_ms == old(self).last_tray_click_ms,
            match err {
                Some(e) => {
                    &&& final(self).error_message == Some(e)
                    &&& strings_view(final(self).logs@) == strings_view(old(self).logs@).push("[!] Session Error: "@ + e@)
                    &&& contains_text(e@, "AUTOMATION_FAILED"@) ==> (final(self).automation_warning matches Some(w)
                        && w@ == automation_warning_text())
                    &&& !contains_text(e@, "AUTOMATION_FAILED"@) ==> final(self).automation_warning == old(self).automation_warning
                },
                None => final(self).error_message == old(self).error_message
                    && final(self).logs@ == old(self).logs@
                    && final(self).automation_warning == old(self).automation_warning,
            },
    {
        self.status = if err.is_some() { ConnectionStatus::Error } else { ConnectionStatus::Disconnected };
        self.mfa_info = None;
        self.connection_start_ms = None;
        match err {
            Some(e) => {
                self.error_message = Some(e.clone());
                let mut line = String::from_str("[!] Session Error: ");
                push_str(&mut line, e.as_str());
                let ghost before = self.logs@;
                let ghost lv = line@;
                self.logs.push(line);
                assert(strings_view(self.logs@) =~= strings_view(before).push(lv));
                if contains_str(e.as_str(), "AUTOMATION_FAILED") {
                    self.automation_warning = Some(String::from_str(
                        "Full Auto mode encountered repeated issues.\n\nSuggestions:\n\u{2022} Switch to Manual mode to complete login yourself\n\u{2022} Use Visual Auto mode and record a screen video for bug reporting\n\u{2022} Try clearing session data (Wipe Session button)",
                    ));
                }
            }
            None => {}
        }
    }

    /// The session reported a status. On a change, returns whether the tray's
    /// Connect and Disconnect items are enabled.
    pub fn on_status_changed(&mut self, status: ConnectionStatus) -> (r: Option<(bool, bool)>)
        ensures
            *final(self) == (GuiModel { status, ..*old(self) }),
            r == (if status != old(self).status {
                Some((status == ConnectionStatus::Disconnected, status == ConnectionStatus::Connected))
            } else {
                None
            }),
    {
        if self.status != status {
            self.status = status;
            Some((status == ConnectionStatus::Disconnected, status == ConnectionStatus::Connected))
        } else {
            None
        }
    }

    /// An MFA number to show; returns whether the window must be opened for it.
    pub fn on_mfa_push(&mut self, code: String) -> (show: bool)
        ensures
            *final(self) == (GuiModel { mfa_info: Some(code), ..*old(self) }),
            show == !old(self).is_visible,
    {
        self.mfa_info = Some(code);
        !self.is_visible
    }

    pub fn on_mfa_complete(&mut self)
        ensures
            *final(self) == (GuiModel { mfa_info: None, ..*old(self) }),
    {
        self.mfa_info = None;
    }

    /// A click on the tray icon at `now_ms`: clicks within 500 ms of the last
    /// accepted one are ignored.
    pub fn on_tray_click(&mut self, now_ms: u64) -> (accepted: bool)
        ensures
            accepted == match old(self).last_tray_click_ms {
                Some(last) => !(now_ms >= last && now_ms - last < 500),
                None => true,
            },
            accepted ==> *final(self) == (GuiModel { last_tray_click_ms: Some(now_ms), ..*old(self) }),
            !accepted ==> *final(self) == *old(self),
    {
        match self.last_tray_click_ms {
            Some(last) => {
                if now_ms >= last && now_ms - last < 500 {
                    return false;
                }
            }
            None => {}
        }
        self.last_tray_click_ms = Some(now_ms);
        true
    }

    /// A visibility toggle, from the tray or from the window's close button.
    pub fn on_toggle_visibility(&mut self, from_close_request: bool) -> (a: VisibilityAction)
        ensures
            old(self).window_close_pending ==> a == VisibilityAction::Ignore
                && final(self).is_visible == old(self).is_visible
                && final(self).window_close_pending,
            !old(self).window_close_pending && old(self).is_visible && from_close_request && !old(self).close_to_tray
                ==> a == VisibilityAction::Exit && final(self).is_visible,
            !old(self).window_close_pending && old(self).is_visible && !(from_close_request && !old(self).close_to_tray)
                ==> a == VisibilityAction::Hide && !final(self).is_visible && final(self).window_close_pending,
            !old(self).window_close_pending && !old(self).is_visible
                ==> a == VisibilityAction::Show && final(self).is_visible && !final(self).window_close_pending,
            a == VisibilityAction::Exit ==> final(self).window_close_pending == old(self).window_close_pending,
            same_besides_window(*final(self), *old(self)),
    {
        if self.window_close_pending {
            return VisibilityAction::Ignore;
        }
        if self.is_visible {
            if from_close_request && !self.close_to_tray {
                return VisibilityAction::Exit;
            }
            self.is_visible = false;
            self.window_close_pending = true;
            VisibilityAction::Hide
        } else {
            self.is_visible = true;
            VisibilityAction::Show
        }
    }

    pub fn on_window_opened(&mut self)
        ensures
            *final(self) == (GuiModel { is_visible: true, window_close_pending: false, ..*old(self) }),
    {
        self.is_visible = true;
        self.window_close_pending = false;
    }

    /// A window closed; `is_ours` when it is the application's window.
    pub fn on_window_closed(&mut self, is_ours: bool)
        ensures
            is_ours ==> *final(self) == (GuiModel { is_visible: false, window_close_pending: false, ..*old(self) }),
            !is_ours ==> *final(self) == *old(self),
    {
        if is_ours {
            self.is_visible = false;
            self.window_close_pending = false;
        }
    }

    /// The session asks the user for input: the dialog shows `msg` with an
    /// empty field; returns whether the window must be opened for it.
    pub fn on_input_requested(&mut self, msg: String, is_password: bool) -> (show: bool)
        ensures
            *final(self) == (GuiModel {
                pending_prompt: Some((msg, is_password)),
                current_input: final(self).current_input,
                ..*old(self)
            }),
            final(self).current_input@.len() == 0,
            show == !old(self).is_visible,
    {
        self.pending_prompt = Some((msg, is_password));
        self.current_input = String::new();
        !self.is_visible
    }

    /// The user edited the dialog's field.
    pub fn on_input_changed(&mut self, value: String)
        ensures
            *final(self) == (GuiModel { current_input: value, ..*old(self) }),
    {
        self.current_input = value;
    }

    /// The user submitted the dialog: with a prompt showing, the typed text
    /// is the answer and the dialog closes with its field cleared; without
    /// one nothing happens.
    pub fn on_submit_input(&mut self) -> (answer: Option<String>)
        ensures
            old(self).pending_prompt is Some ==> answer == Some(old(self).current_input)
                && *final(self) == (GuiModel {
                    pending_prompt: None,
                    current_input: final(self).current_input,
                    ..*old(self)
                })
                && final(self).current_input@.len() == 0,
            old(self).pending_prompt is None ==> answer is None && *final(self) == *old(self),
    {
        if self.pending_prompt.is_some() {
            self.pending_prompt = None;
            let mut answer = String::new();
            std::mem::swap(&mut answer, &mut self.current_input);
            Some(answer)
        } else {
            None
        }
    }
}

/// The console never grows past `MAX_LOG_LINES` lines by appending: a
/// console within the bound stays within it, earlier lines keep their order,
/// and a full console drops exactly its oldest line.
pub proof fn law_console_bounded(logs: Seq<Seq<char>>, line: Seq<char>)
    requires
        logs.len() <= MAX_LOG_LINES,
    ensures
        console_after(logs, line).len() <= MAX_LOG_LINES,
        console_after(logs, line).last() == line,
        logs.len() < MAX_LOG_LINES ==> console_after(logs, line).drop_last() == logs,
        logs.len() == MAX_LOG_LINES ==> console_after(logs, line).drop_last() == logs.drop_first(),
{
    if logs.len() == MAX_LOG_LINES {
        assert(logs.push(line).drop_first().drop_last() =~= logs.drop_first());
    } else {
        assert(logs.push(line).drop_last() =~= logs);
    }
}

} // verus!
