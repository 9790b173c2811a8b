use kuvpn::cli::{cli_log_event, session_failed, spinner_effect, CliLogEvent};
use kuvpn::dsid_cache::DsidCache;
use kuvpn::error::ErrorCategory;
use kuvpn::gui::{
    action_button, line_tone, prompt_title, status_title, ActionButton, LineTone,
    default_auto_hide, gui_session_config, log_level_name, login_mode_flags, login_mode_name, GuiModel,
    VisibilityAction, MAX_LOG_LINES,
};
use kuvpn::session::{ConnectionStatus, ParsedLog, TunnelMode};
use kuvpn::theme::{PaletteFamily, Rounding, ShadowDepth, ThemeConfig};

#[test]
fn theme_labels_and_defaults() {
    let all = PaletteFamily::all();
    assert_eq!(all.len(), 10);
    let labels: Vec<&str> = all.iter().map(|f| f.label()).collect();
    assert_eq!(labels, vec!["Crimson", "Frost", "Pebble", "Slate", "Sand", "Forest", "Ocean", "Violet", "Ember", "Rose"]);
    assert_eq!(PaletteFamily::Rose.default_rounding(), Rounding::Pill);
    assert_eq!(PaletteFamily::Slate.default_rounding(), Rounding::Sharp);
    assert_eq!(PaletteFamily::Violet.default_shadow(), ShadowDepth::Elevated);
    assert_eq!(Rounding::Smooth.label(), "Smooth");
    assert_eq!(ShadowDepth::Flat.label(), "None");
    assert_eq!(PaletteFamily::default(), PaletteFamily::Crimson);
    assert_eq!(Rounding::default(), Rounding::Rounded);
    assert_eq!(ShadowDepth::default(), ShadowDepth::Subtle);
}

#[test]
fn theme_resolution() {
    let c = ThemeConfig::default();
    assert_eq!(c.family, PaletteFamily::Crimson);
    assert!(c.dark);
    assert_eq!(c.resolved_rounding(), Rounding::Rounded);
    assert_eq!(c.resolved_shadow(), ShadowDepth::Medium);
    let c = ThemeConfig { family: PaletteFamily::Pebble, dark: false, rounding: Some(Rounding::Square), shadow: None };
    assert_eq!(c.resolved_rounding(), Rounding::Square);
    assert_eq!(c.resolved_shadow(), ShadowDepth::Medium);
}

#[test]
fn gui_settings_logic() {
    assert!(default_auto_hide());
    assert_eq!(login_mode_flags(0), (true, false));
    assert_eq!(login_mode_flags(1), (false, false));
    assert_eq!(login_mode_flags(2), (false, true));
    assert_eq!(login_mode_name(1), "Visual Automatic (Browser + Auto-Login)");
    assert_eq!(log_level_name(3), "Info");
    assert_eq!(log_level_name(9), "Info");
    assert_eq!(log_level_name(0), "Off");
    let c = gui_session_config("https://vpn.ku.edu.tr", "vpn.ku.edu.tr", "", "sudo", "", 0, TunnelMode::Full);
    assert!(c.email.is_none());
    assert_eq!(c.openconnect_path, "openconnect");
    assert_eq!(c.interface_name, "kuvpn0");
    assert!(c.headless && !c.no_auto_login);
    let c = gui_session_config("u", "d", "me@ku.edu.tr", "doas", "/opt/oc", 2, TunnelMode::Manual(None));
    assert_eq!(c.email.as_deref(), Some("me@ku.edu.tr"));
    assert_eq!(c.openconnect_path, "/opt/oc");
    assert_eq!(c.escalation_tool.as_deref(), Some("doas"));
}

#[test]
fn gui_console_and_status() {
    let mut m = GuiModel::new(true);
    assert!(m.on_connect_pressed(1_000));
    assert_eq!(m.connection_start_ms, Some(1_000));
    assert!(!m.on_connect_pressed(2_000));
    assert_eq!(m.connection_start_ms, Some(1_000));
    assert!(m.logs.is_empty());
    m.on_log_appended("Info|Accessing campus gateway...", 3);
    assert_eq!(m.status_message, "Accessing campus gateway...");
    assert_eq!(m.logs, vec!["[INF] Accessing campus gateway..."]);
    m.on_log_appended("Debug|hidden", 3);
    assert_eq!(m.logs.len(), 1);
    m.on_log_appended("Error|broken", 3);
    assert_eq!(m.error_message.as_deref(), Some("broken"));
    m.on_log_appended("not a log line", 5);
    assert_eq!(m.logs.len(), 2);
    for i in 0..1000 {
        m.on_log_appended(&format!("Info|line {}", i), 5);
    }
    assert_eq!(m.logs.len(), MAX_LOG_LINES);
    assert_eq!(m.logs.last().unwrap(), "[INF] line 999");
    assert_eq!(m.on_status_changed(ConnectionStatus::Connected), Some((false, true)));
    assert_eq!(m.on_status_changed(ConnectionStatus::Connected), None);
    m.on_connection_finished(Some("AUTOMATION_FAILED: stuck".to_string()));
    assert_eq!(m.status, ConnectionStatus::Error);
    assert!(m.automation_warning.as_deref().unwrap().starts_with("Full Auto mode encountered repeated issues."));
    assert_eq!(m.logs.last().unwrap(), "[!] Session Error: AUTOMATION_FAILED: stuck");
    // The session-error line is appended without dropping the oldest line.
    assert_eq!(m.logs.len(), MAX_LOG_LINES + 1);
    assert_eq!(m.logs[0], "[INF] line 500");
    let mut m = GuiModel::new(true);
    m.on_connection_finished(None);
    assert_eq!(m.status, ConnectionStatus::Disconnected);
    assert!(m.automation_warning.is_none());
}

#[test]
fn gui_window_visibility() {
    let mut m = GuiModel::new(true);
    assert_eq!(m.on_toggle_visibility(false), VisibilityAction::Show);
    m.on_window_opened();
    assert_eq!(m.on_toggle_visibility(true), VisibilityAction::Hide);
    assert_eq!(m.on_toggle_visibility(false), VisibilityAction::Ignore);
    m.on_window_closed(true);
    assert_eq!(m.on_toggle_visibility(false), VisibilityAction::Show);
    let mut m = GuiModel::new(false);
    m.on_toggle_visibility(false);
    m.on_window_opened();
    assert_eq!(m.on_toggle_visibility(true), VisibilityAction::Exit);
    assert!(m.on_mfa_push("42".to_string()) == false);
    m.on_mfa_complete();
    assert!(m.mfa_info.is_none());
    assert!(m.on_tray_click(1000));
    assert!(!m.on_tray_click(1400));
    assert!(m.on_tray_click(1600));
}

#[test]
fn cli_log_classification() {
    let ev = |s: &str| cli_log_event(&ParsedLog::parse(s).unwrap());
    assert_eq!(ev("Info|Accessing campus gateway..."), CliLogEvent::AccessingGateway);
    assert_eq!(ev("Info|Initializing tunnel..."), CliLogEvent::InitializingTunnel);
    assert_eq!(ev("Info|Connected."), CliLogEvent::Connected);
    assert_eq!(ev("Info|Disconnected."), CliLogEvent::Disconnected);
    assert_eq!(ev("Info|sudo requires a password. Prompting..."), CliLogEvent::PasswordPrompt);
    assert_eq!(ev("Error|Could not find a handler for the current page after 20 retries: x"),
        CliLogEvent::Failure { suggest_manual_mode: true });
    assert_eq!(ev("Error|bad password"), CliLogEvent::Failure { suggest_manual_mode: false });
    assert_eq!(ev("Warn|careful"), CliLogEvent::Warning);
    assert_eq!(ev("Debug|details"), CliLogEvent::Information);
    assert!(session_failed(ConnectionStatus::Error));
    assert!(!session_failed(ConnectionStatus::Disconnected));
}

#[test]
fn dsid_cache_validity() {
    let c = DsidCache { dsid: "d".into(), expires_unix: 100, domain: "vpn.ku.edu.tr".into() };
    assert!(c.is_valid_at(99));
    assert!(!c.is_valid_at(100));
    assert!(!c.is_valid());
    let c = DsidCache { dsid: "d".into(), expires_unix: 0, domain: "x".into() };
    assert!(!c.is_valid_at(0));
    let c = DsidCache { dsid: "d".into(), expires_unix: u64::MAX, domain: "x".into() };
    assert!(c.is_valid());
}

#[test]
fn status_area_texts() {
    assert_eq!(status_title(ConnectionStatus::Disconnected, None), "Public Access");
    assert_eq!(status_title(ConnectionStatus::Connecting, None), "Joining Campus...");
    assert_eq!(status_title(ConnectionStatus::Connected, None), "KU Network Active");
    assert_eq!(status_title(ConnectionStatus::Disconnecting, None), "Disconnecting...");
    assert_eq!(status_title(ConnectionStatus::Error, Some(ErrorCategory::Authentication)), "Authentication Error");
    assert_eq!(status_title(ConnectionStatus::Error, Some(ErrorCategory::Connection)), "Connection Error");
    assert_eq!(status_title(ConnectionStatus::Error, Some(ErrorCategory::System)), "System Error");
    assert_eq!(status_title(ConnectionStatus::Error, None), "Error");

    let mut m = GuiModel::new(true);
    assert_eq!(m.status_subtitle(), "Koc University Access Restricted");
    m.status = ConnectionStatus::Connecting;
    assert_eq!(m.status_subtitle(), m.status_message);
    m.status = ConnectionStatus::Connected;
    assert_eq!(m.status_subtitle(), "Internal Resources Available");
    m.status = ConnectionStatus::Error;
    assert_eq!(m.status_subtitle(), "Check console for details");
    m.error_message = Some("Login failed".to_string());
    assert_eq!(m.status_subtitle(), "Login failed");
    m.automation_warning = Some("warning".to_string());
    assert_eq!(m.status_subtitle(), "See details below");
}

#[test]
fn action_buttons() {
    assert_eq!(action_button(ConnectionStatus::Disconnected), ActionButton::Join);
    assert_eq!(action_button(ConnectionStatus::Error), ActionButton::Join);
    assert_eq!(action_button(ConnectionStatus::Connecting), ActionButton::Cancel);
    assert_eq!(action_button(ConnectionStatus::Connected), ActionButton::Disconnect);
    assert_eq!(action_button(ConnectionStatus::Disconnecting), ActionButton::Disconnect);
    assert_eq!(ActionButton::Join.label(), "JOIN NETWORK");
    assert_eq!(ActionButton::Cancel.label(), "CANCEL");
    assert_eq!(ActionButton::Disconnect.label(), "DISCONNECT");
}

#[test]
fn console_tones() {
    assert_eq!(line_tone("[ERR] boom"), LineTone::Danger);
    assert_eq!(line_tone("[!] stuck"), LineTone::Danger);
    assert_eq!(line_tone("[WRN] careful"), LineTone::Warning);
    assert_eq!(line_tone("[INF] fine"), LineTone::Muted);
    assert_eq!(line_tone("[*] page"), LineTone::Muted);
    assert_eq!(line_tone("[DBG] detail"), LineTone::Disabled);
    assert_eq!(line_tone("[TRC] detail"), LineTone::Disabled);
    assert_eq!(line_tone("plain"), LineTone::Muted);
    assert_eq!(line_tone(""), LineTone::Muted);
}

#[test]
fn console_keeps_order_and_drops_oldest() {
    let mut m = GuiModel::new(true);
    m.logs = (0..500).map(|i| format!("[INF] m{}", i)).collect();
    m.on_log_appended("Info|m500", 3);
    assert_eq!(m.logs.len(), 500);
    assert_eq!(m.logs[0], "[INF] m1");
    assert_eq!(m.logs[498], "[INF] m499");
    assert_eq!(m.logs[499], "[INF] m500");
    assert_eq!(m.status_message, "m500");
    // A console already past the bound (after a session error) loses one line per append.
    m.on_connection_finished(Some("x".to_string()));
    assert_eq!(m.logs.len(), 501);
    m.on_log_appended("Info|next", 3);
    assert_eq!(m.logs.len(), 501);
    assert_eq!(m.logs[0], "[INF] m2");
}

#[test]
fn connect_refused_keeps_state() {
    let mut m = GuiModel::new(true);
    m.status = ConnectionStatus::Connecting;
    m.logs = vec!["x".to_string()];
    assert!(!m.on_connect_pressed(5));
    assert_eq!(m.logs, vec!["x".to_string()]);
    assert_eq!(m.status_message, "Ready to connect");
}

#[test]
fn mfa_number_survives_showing_the_window() {
    let mut m = GuiModel::new(true);
    assert!(m.on_mfa_push("42".to_string()));
    assert_eq!(m.on_toggle_visibility(false), VisibilityAction::Show);
    assert_eq!(m.mfa_info.as_deref(), Some("42"));
    assert!(m.close_to_tray);
}

#[test]
fn input_dialog_titles() {
    assert_eq!(prompt_title(true, "Enter your sudo password to start the VPN tunnel"), "System Password");
    assert_eq!(prompt_title(true, "KU Password: "), "KU Account");
    assert_eq!(prompt_title(false, "Username (email): "), "KU Authentication");
}

#[test]
fn cli_spinner_steps() {
    let e = spinner_effect(CliLogEvent::AccessingGateway, false);
    assert!(e.start_tick && e.active_after && !e.finish_and_clear);
    assert_eq!(e.message, Some("Accessing campus gateway..."));
    let e = spinner_effect(CliLogEvent::AccessingGateway, true);
    assert!(!e.start_tick && e.active_after);
    let e = spinner_effect(CliLogEvent::Connected, true);
    assert!(e.finish_and_clear && !e.active_after && e.start_clock);
    let e = spinner_effect(CliLogEvent::Disconnecting, true);
    assert!(e.finish_and_clear && e.start_tick && e.active_after);
    assert_eq!(e.message, Some("Disconnecting..."));
    let e = spinner_effect(CliLogEvent::Warning, true);
    assert!(!e.finish_and_clear && e.active_after && e.message.is_none());
    let e = spinner_effect(CliLogEvent::Failure { suggest_manual_mode: true }, false);
    assert!(!e.finish_and_clear && !e.active_after);
}

#[test]
fn connection_clock_and_input_dialog() {
    let mut m = GuiModel::new(true);
    assert!(m.on_connect_pressed(42));
    assert_eq!(m.connection_start_ms, Some(42));
    m.on_connection_finished(None);
    assert_eq!(m.connection_start_ms, None);

    assert!(m.on_input_requested("KU Password: ".to_string(), true));
    assert_eq!(m.pending_prompt, Some(("KU Password: ".to_string(), true)));
    assert_eq!(m.current_input, "");
    m.on_input_changed("secret".to_string());
    assert_eq!(m.on_submit_input(), Some("secret".to_string()));
    assert_eq!(m.pending_prompt, None);
    assert_eq!(m.current_input, "");
    assert_eq!(m.on_submit_input(), None);
    m.on_window_opened();
    assert!(!m.on_input_requested("Username (email): ".to_string(), false));
}

#[test]
fn mfa_push_leaves_the_rest_alone() {
    let mut m = GuiModel::new(true);
    m.logs = vec!["a".to_string()];
    assert!(m.on_mfa_push("42".to_string()));
    assert!(!m.window_close_pending);
    assert_eq!(m.logs, vec!["a".to_string()]);
    assert_eq!(m.status, ConnectionStatus::Disconnected);
    m.on_mfa_complete();
    assert_eq!(m.mfa_info, None);
}
