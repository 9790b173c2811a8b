use kuvpn::dsid::{
    check_poll, on_page_matched, should_try, HandledSet, LoginProgress, PageOutcome, PageStep, StuckAction,
    MAX_RESETS,
};
use kuvpn::error::AuthError;

#[test]
fn page_steps_in_order() {
    let mut i = 0usize;
    let mut steps = Vec::new();
    while let Some(s) = PageStep::at(i) {
        assert_eq!(s.index(), i);
        steps.push(s);
        i += 1;
    }
    assert_eq!(steps.len(), 18);
    assert_eq!(steps[0], PageStep::PickAccount);
    assert_eq!(steps[7], PageStep::Username);
    assert_eq!(steps[17], PageStep::UnexpectedState);
}

#[test]
fn handled_steps_are_skipped_until_cleared() {
    let mut h = HandledSet::new();
    assert!(should_try(&h, PageStep::Username));
    assert!(matches!(on_page_matched(&mut h, PageStep::Username, ""), PageOutcome::Handled { mfa: false }));
    assert!(!should_try(&h, PageStep::Username));
    assert!(h.contains(PageStep::Username));
    h.clear();
    assert!(should_try(&h, PageStep::Username));
    // Error pages are checked on every poll.
    let _ = on_page_matched(&mut h, PageStep::IncorrectPassword, "");
    assert!(should_try(&h, PageStep::IncorrectPassword));
}

#[test]
fn special_page_bookkeeping() {
    let mut h = HandledSet::new();
    assert!(matches!(on_page_matched(&mut h, PageStep::NgcPush, ""), PageOutcome::Handled { mfa: true }));
    assert!(h.contains(PageStep::NgcPush));
    assert!(matches!(on_page_matched(&mut h, PageStep::RemoteNgcDenied, ""), PageOutcome::Handled { mfa: false }));
    assert!(!h.contains(PageStep::NgcPush));
    assert!(!h.contains(PageStep::RemoteNgcDenied));
    let _ = on_page_matched(&mut h, PageStep::NgcErrorUsePassword, "");
    assert!(h.contains(PageStep::NgcErrorUsePassword));
    assert!(h.contains(PageStep::UseAppInstead));
    assert!(matches!(on_page_matched(&mut h, PageStep::Push, ""), PageOutcome::Handled { mfa: true }));
}

#[test]
fn error_pages() {
    let mut h = HandledSet::new();
    match on_page_matched(&mut h, PageStep::AzureError, "Password has expired.") {
        PageOutcome::Failed(AuthError::AuthenticationFailed { reason, suggest_manual_mode, suggest_clear_cache }) => {
            assert_eq!(reason, "Password has expired.");
            assert!(!suggest_manual_mode && suggest_clear_cache);
        }
        _ => panic!("expected failure"),
    }
    match on_page_matched(&mut h, PageStep::InvalidUsername, "") {
        PageOutcome::Failed(AuthError::InvalidUsername { message }) => assert_eq!(
            message,
            "The username you entered may be incorrect or the account does not exist."
        ),
        _ => panic!("expected failure"),
    }
    match on_page_matched(&mut h, PageStep::UsernameWarning, "  This username may be incorrect \n") {
        PageOutcome::Failed(AuthError::UsernameWarning { warning_text }) => {
            assert_eq!(warning_text, "This username may be incorrect")
        }
        _ => panic!("expected failure"),
    }
    match on_page_matched(&mut h, PageStep::IncorrectPassword, "") {
        PageOutcome::Failed(AuthError::IncorrectPassword { message }) => {
            assert_eq!(message, "Your account or password is incorrect.")
        }
        _ => panic!("expected failure"),
    }
    match on_page_matched(&mut h, PageStep::GenericError, "Something went wrong") {
        PageOutcome::Failed(AuthError::AuthenticationFailed { reason, suggest_manual_mode, suggest_clear_cache }) => {
            assert_eq!(reason, "Unexpected error encountered:\n\nSomething went wrong");
            assert!(suggest_manual_mode && suggest_clear_cache);
        }
        _ => panic!("expected failure"),
    }
    match on_page_matched(&mut h, PageStep::UnexpectedState, "Error 404") {
        PageOutcome::Failed(AuthError::AuthenticationFailed { reason, suggest_manual_mode, suggest_clear_cache }) => {
            assert_eq!(reason, "Unexpected page state:\n\nError 404");
            assert!(suggest_manual_mode && !suggest_clear_cache);
        }
        _ => panic!("expected failure"),
    }
}

#[test]
fn cookie_poll() {
    assert!(check_poll(false, Ok(None)).is_none());
    assert!(matches!(check_poll(false, Ok(Some("abc".to_string()))), Some(Ok(ref d)) if d == "abc"));
    assert!(matches!(check_poll(true, Ok(Some("abc".to_string()))), Some(Err(AuthError::Cancelled))));
    match check_poll(false, Err("socket closed".to_string())) {
        Some(Err(AuthError::BrowserError { message })) => assert_eq!(message, "Browser connection lost: socket closed"),
        _ => panic!("expected browser error"),
    }
}

#[test]
fn url_change_restarts_progress() {
    let mut p = LoginProgress::new();
    assert!(p.observe_url("https://login.microsoftonline.com/a"));
    let _ = on_page_matched(&mut p.handled, PageStep::Username, "");
    assert!(matches!(p.after_page(false, false), StuckAction::Continue));
    assert_eq!(p.retries, 1);
    assert!(!p.observe_url("https://login.microsoftonline.com/a"));
    assert_eq!(p.retries, 1);
    assert!(p.handled.contains(PageStep::Username));
    assert!(p.observe_url("https://login.microsoftonline.com/b"));
    assert_eq!(p.retries, 0);
    assert!(!p.handled.contains(PageStep::Username));
}

#[test]
fn stuck_login_resets_then_gives_up() {
    let mut p = LoginProgress::new();
    p.observe_url("u");
    let mut resets = 0;
    let outcome = loop {
        match p.after_page(false, false) {
            StuckAction::Continue => {}
            StuckAction::ResetPage => {
                resets += 1;
                p.after_reset(true);
                assert_eq!(p.retries, 0);
                assert_eq!(p.last_url, "");
            }
            StuckAction::Fail(e) => break e,
        }
    };
    assert_eq!(resets, MAX_RESETS);
    match outcome {
        AuthError::AuthenticationFailed { reason, suggest_manual_mode, suggest_clear_cache } => {
            assert!(reason.starts_with("Full Auto mode unable to complete login after 2 page resets."));
            assert!(suggest_manual_mode && suggest_clear_cache);
        }
        _ => panic!("expected failure"),
    }
}

#[test]
fn mfa_wait_never_resets() {
    let mut p = LoginProgress::new();
    for _ in 0..100 {
        assert!(matches!(p.after_page(true, true), StuckAction::Continue));
    }
    assert_eq!(p.reset_count, 0);
}

#[test]
fn retries_exhausted_after_failed_resets() {
    let mut p = LoginProgress::new();
    p.observe_url("https://example/x");
    for _ in 0..21 {
        p.retries += 1;
    }
    assert!(p.retries_exhausted().is_some());
    match p.retries_exhausted().unwrap() {
        AuthError::AuthenticationFailed { reason, .. } => assert_eq!(
            reason,
            "Could not find a handler for the current page after 20 retries: https://example/x"
        ),
        _ => panic!(),
    }
    p.after_reset(false);
    assert_eq!(p.retries, 21);
    p.after_reset(true);
    assert!(p.retries_exhausted().is_none());
}

#[test]
fn dsid_cookie_choice() {
    let c = |n: &str, d: &str, v: &str| kuvpn::dsid::BrowserCookie {
        name: n.to_string(),
        domain: d.to_string(),
        value: v.to_string(),
    };
    let cookies = vec![
        c("SID", "vpn.ku.edu.tr", "a"),
        c("DSID", "login.microsoftonline.com", "b"),
        c("DSID", ".vpn.ku.edu.tr", "first"),
        c("DSID", "vpn.ku.edu.tr", "second"),
    ];
    assert_eq!(kuvpn::dsid::pick_dsid(&cookies, "vpn.ku.edu.tr"), Some("first".to_string()));
    assert_eq!(kuvpn::dsid::pick_dsid(&cookies, "other.edu"), None);
    assert_eq!(kuvpn::dsid::pick_dsid(&vec![], "vpn.ku.edu.tr"), None);
}

#[test]
fn manual_mode_only_waits() {
    let mut p = kuvpn::dsid::LoginProgress::new();
    assert!(matches!(p.begin_poll(false, Ok(None), "https://a", true), kuvpn::dsid::PollStep::Wait));
    assert_eq!(p.last_url, "https://a");
    assert!(matches!(p.begin_poll(false, Ok(None), "https://a", false), kuvpn::dsid::PollStep::HandlePage));
    match p.begin_poll(false, Ok(Some("cookie".to_string())), "https://a", true) {
        kuvpn::dsid::PollStep::Finish(Ok(d)) => assert_eq!(d, "cookie"),
        _ => panic!("expected the DSID"),
    }
    assert!(matches!(p.begin_poll(true, Ok(None), "https://b", true), kuvpn::dsid::PollStep::Finish(Err(kuvpn::error::AuthError::Cancelled))));
    assert_eq!(p.last_url, "https://a");
    match p.begin_poll(false, Err("gone".to_string()), "https://a", true) {
        kuvpn::dsid::PollStep::Finish(Err(kuvpn::error::AuthError::BrowserError { message })) => {
            assert_eq!(message, "Browser connection lost: gone")
        }
        _ => panic!("expected a browser error"),
    }
}
