//! The decisions of the browser login that ends with the DSID cookie: which
//! page handler to try next, what a recognised page means, and when the
//! automation is stuck and resets or gives up.

use std::collections::HashSet;
use vstd::prelude::*;
use vstd::string::*;
use crate::error::AuthError;
use crate::openconnect::opt_string_view;
use crate::text::{contains_str, contains_text, push_str, str_eq, trim_text, trimmed};

verus! {

/// The pages of the Microsoft login flow that the automation recognises, in
/// the order they are tried on every poll.
#[derive(Debug, Clone, Copy, PartialEq, Eq, Structural)]
pub enum PageStep {
    PickAccount,
    SessionConflict,
    AzureError,
    InvalidUsername,
    UsernameWarning,
    IncorrectPassword,
    RemoteNgcDenied,
    Username,
    NgcErrorUsePassword,
    UseAppInstead,
    NgcPush,
    Password,
    Kmsi,
    Push,
    VerificationCode,
    OtpEntry,
    GenericError,
    UnexpectedState,
}

pub const PAGE_STEP_COUNT: usize = 18;

/// Position of a step in the order.
pub open spec fn step_index(p: PageStep) -> int {
    match p {
        PageStep::PickAccount => 0,
        PageStep::SessionConflict => 1,
        PageStep::AzureError => 2,
        PageStep::InvalidUsername => 3,
        PageStep::UsernameWarning => 4,
        PageStep::IncorrectPassword => 5,
        PageStep::RemoteNgcDenied => 6,
        PageStep::Username => 7,
        PageStep::NgcErrorUsePassword => 8,
        PageStep::UseAppInstead => 9,
        PageStep::NgcPush => 10,
        PageStep::Password => 11,
        PageStep::Kmsi => 12,
        PageStep::Push => 13,
        PageStep::VerificationCode => 14,
        PageStep::OtpEntry => 15,
        PageStep::GenericError => 16,
        PageStep::UnexpectedState => 17,
    }
}

/// The step at position `i` of the order.
pub open spec fn step_at_spec(i: int) -> Option<PageStep> {
    if i == 0 { Some(PageStep::PickAccount) }
    else if i == 1 { Some(PageStep::SessionConflict) }
    else if i == 2 { Some(PageStep::AzureError) }
    else if i == 3 { Some(PageStep::InvalidUsername) }
    else if i == 4 { Some(PageStep::UsernameWarning) }
    else if i == 5 { Some(PageStep::IncorrectPassword) }
    else if i == 6 { Some(PageStep::RemoteNgcDenied) }
    else if i == 7 { Some(PageStep::Username) }
    else if i == 8 { Some(PageStep::NgcErrorUsePassword) }
    else if i == 9 { Some(PageStep::UseAppInstead) }
    else if i == 10 { Some(PageStep::NgcPush) }
    else if i == 11 { Some(PageStep::Password) }
    else if i == 12 { Some(PageStep::Kmsi) }
    else if i == 13 { Some(PageStep::Push) }
    else if i == 14 { Some(PageStep::VerificationCode) }
    else if i == 15 { Some(PageStep::OtpEntry) }
    else if i == 16 { Some(PageStep::GenericError) }
    else if i == 17 { Some(PageStep::UnexpectedState) }
    else { None }
}

/// Steps that are skipped once handled on the current page; the error pages
/// and the "request denied" page are checked on every poll.
pub open spec fn is_guarded(p: PageStep) -> bool {
    !(p == PageStep::AzureError || p == PageStep::InvalidUsername || p == PageStep::UsernameWarning
        || p == PageStep::IncorrectPassword || p == PageStep::RemoteNgcDenied)
}

/// Steps that wait for the user to approve a sign-in on their phone.
pub open spec fn is_mfa_step(p: PageStep) -> bool {
    p == PageStep::NgcPush || p == PageStep::Push
}

impl PageStep {
    /// The step at position `i` of the order, `None` past the last.
    pub fn at(i: usize) -> (r: Option<PageStep>)
        ensures
            r == step_at_spec(i as int),
    {
        if i == 0 { Some(PageStep::PickAccount) }
        else if i == 1 { Some(PageStep::SessionConflict) }
        else if i == 2 { Some(PageStep::AzureError) }
        else if i == 3 { Some(PageStep::InvalidUsername) }
        else if i == 4 { Some(PageStep::UsernameWarning) }
        else if i == 5 { Some(PageStep::IncorrectPassword) }
        else if i == 6 { Some(PageStep::RemoteNgcDenied) }
        else if i == 7 { Some(PageStep::Username) }
        else if i == 8 { Some(PageStep::NgcErrorUsePassword) }
        else if i == 9 { Some(PageStep::UseAppInstead) }
        else if i == 10 { Some(PageStep::NgcPush) }
        else if i == 11 { Some(PageStep::Password) }
        else if i == 12 { Some(PageStep::Kmsi) }
        else if i == 13 { Some(PageStep::Push) }
        else if i == 14 { Some(PageStep::VerificationCode) }
        else if i == 15 { Some(PageStep::OtpEntry) }
        else if i == 16 { Some(PageStep::GenericError) }
        else if i == 17 { Some(PageStep::UnexpectedState) }
        else { None }
    }

    pub fn index(&self) -> (r: usize)
        ensures
            r as int == step_index(*self),
            r < PAGE_STEP_COUNT,
    {
        match self {
            PageStep::PickAccount => 0,
            PageStep::SessionConflict => 1,
            PageStep::AzureError => 2,
            PageStep::InvalidUsername => 3,
            PageStep::UsernameWarning => 4,
            PageStep::IncorrectPassword => 5,
            PageStep::RemoteNgcDenied => 6,
            PageStep::Username => 7,
            PageStep::NgcErrorUsePassword => 8,
            PageStep::UseAppInstead => 9,
            PageStep::NgcPush => 10,
            PageStep::Password => 11,
            PageStep::Kmsi => 12,
            PageStep::Push => 13,
            PageStep::VerificationCode => 14,
            PageStep::OtpEntry => 15,
            PageStep::GenericError => 16,
            PageStep::UnexpectedState => 17,
        }
    }

    pub fn is_guarded(&self) -> (r: bool)
        ensures
            r == is_guarded(*self),
    {
        !matches!(self, PageStep::AzureError | PageStep::InvalidUsername | PageStep::UsernameWarning
            | PageStep::IncorrectPassword | PageStep::RemoteNgcDenied)
    }
}

/// The set of steps handled on the current page, kept as the set of their
/// positions in the order.
pub struct HandledSet {
    steps: HashSet<usize>,
}

impl View for HandledSet {
    type V = Set<PageStep>;

    closed spec fn view(&self) -> Set<PageStep> {
        Set::new(|p: PageStep| self.steps@.contains(step_index(p) as usize))
    }
}

impl HandledSet {
    pub closed spec fn wf(&self) -> bool {
        forall|k: usize| #[trigger] self.steps@.contains(k) ==> k < PAGE_STEP_COUNT
    }

    pub fn new() -> (s: HandledSet)
        ensures
            s.wf(),
            s@ == Set::<PageStep>::empty(),
    {
        let s = HandledSet { steps: HashSet::new() };
        assert(s@ =~= Set::<PageStep>::empty());
        s
    }

    pub fn contains(&self, p: PageStep) -> (r: bool)
        requires
            self.wf(),
        ensures
            r == self@.contains(p),
    {
        broadcast use vstd::std_specs::hash::group_hash_axioms;
        let i = p.index();
        self.steps.contains(&i)
    }

    pub fn insert(&mut self, p: PageStep)
        requires
            old(self).wf(),
        ensures
            final(self).wf(),
            final(self)@ == old(self)@.insert(p),
    {
        broadcast use vstd::std_specs::hash::group_hash_axioms;
        let i = p.index();
        self.steps.insert(i);
        proof {
            assert forall|q: PageStep| #[trigger] final(self)@.contains(q) == old(self)@.insert(p).contains(q) by {
                if step_index(q) == step_index(p) {
                    lemma_step_index_injective(p, q);
                }
            }
            assert(final(self)@ =~= old(self)@.insert(p));
        }
    }

    pub fn remove(&mut self, p: PageStep)
        requires
            old(self).wf(),
        ensures
            final(self).wf(),
            final(self)@ == old(self)@.remove(p),
    {
        broadcast use vstd::std_specs::hash::group_hash_axioms;
        let i = p.index();
        self.steps.remove(&i);
        proof {
            assert forall|q: PageStep| #[trigger] final(self)@.contains(q) == old(self)@.remove(p).contains(q) by {
                if step_index(q) == step_index(p) {
                    lemma_step_index_injective(p, q);
                }
            }
            assert(final(self)@ =~= old(self)@.remove(p));
        }
    }

    pub fn clear(&mut self)
        requires
            old(self).wf(),
        ensures
            final(self).wf(),
            final(self)@ == Set::<PageStep>::empty(),
    {
        self.steps.clear();
        assert(final(self)@ =~= Set::<PageStep>::empty());
    }
}

proof fn lemma_step_index_injective(p: PageStep, q: PageStep)
    requires
        step_index(p) == step_index(q),
    ensures
        p == q,
{
}

/// Whether step `p` is tried on this poll.
pub fn should_try(handled: &HandledSet, p: PageStep) -> (r: bool)
    requires
        handled.wf(),
    ensures
        r == (!is_guarded(p) || !handled@.contains(p)),
{
    !p.is_guarded() || !handled.contains(p)
}

/// What a recognised page means for the login.
#[derive(Debug, Clone)]
pub enum PageOutcome {
    /// The page was handled; `mfa` when it now waits for a phone approval.
    Handled { mfa: bool },
    /// The page shows a fatal error.
    Failed(AuthError),
}

pub open spec fn invalid_username_text() -> Seq<char> {
    "The username you entered may be incorrect or the account does not exist."@
}

pub open spec fn incorrect_password_text() -> Seq<char> {
    "Your account or password is incorrect."@
}

/// The handled set after a recognised page.
pub open spec fn handled_after(h: Set<PageStep>, p: PageStep) -> Set<PageStep> {
    if p == PageStep::RemoteNgcDenied {
        h.remove(PageStep::NgcPush)
    } else if p == PageStep::NgcErrorUsePassword {
        h.insert(PageStep::UseAppInstead).insert(PageStep::NgcErrorUsePassword)
    } else {
        h.insert(p)
    }
}

/// Records that step `p` recognised the page and says what that means.
/// `detail` is the text the page showed, for the steps that read one (the
/// Azure AD error, the username warning, a generic error or page state).
pub fn on_page_matched(handled: &mut HandledSet, p: PageStep, detail: &str) -> (r: PageOutcome)
    requires
        old(handled).wf(),
    ensures
        final(handled).wf(),
        final(handled)@ == handled_after(old(handled)@, p),
        p == PageStep::AzureError ==> (r matches PageOutcome::Failed(AuthError::AuthenticationFailed {
            reason, suggest_manual_mode, suggest_clear_cache }) && reason@ == detail@ && !suggest_manual_mode
            && suggest_clear_cache),
        p == PageStep::InvalidUsername ==> (r matches PageOutcome::Failed(AuthError::InvalidUsername { message })
            && message@ == invalid_username_text()),
        p == PageStep::UsernameWarning ==> (r matches PageOutcome::Failed(AuthError::UsernameWarning { warning_text })
            && warning_text@ == trimmed(detail@)),
        p == PageStep::IncorrectPassword ==> (r matches PageOutcome::Failed(AuthError::IncorrectPassword { message })
            && message@ == incorrect_password_text()),
        p == PageStep::GenericError ==> (r matches PageOutcome::Failed(AuthError::AuthenticationFailed {
            reason, suggest_manual_mode, suggest_clear_cache })
            && reason@ == "Unexpected error encountered:\n\n"@ + detail@ && suggest_manual_mode && suggest_clear_cache),
        p == PageStep::UnexpectedState ==> (r matches PageOutcome::Failed(AuthError::AuthenticationFailed {
            reason, suggest_manual_mode, suggest_clear_cache })
            && reason@ == "Unexpected page state:\n\n"@ + detail@ && suggest_manual_mode && !suggest_clear_cache),
        !(p == PageStep::AzureError || p == PageStep::InvalidUsername || p == PageStep::UsernameWarning
            || p == PageStep::IncorrectPassword || p == PageStep::GenericError || p == PageStep::UnexpectedState)
            ==> (r matches PageOutcome::Handled { mfa } && mfa == is_mfa_step(p)),
{
    match p {
        PageStep::RemoteNgcDenied => {
            handled.remove(PageStep::NgcPush);
            PageOutcome::Handled { mfa: false }
        }
        PageStep::NgcErrorUsePassword => {
            handled.insert(PageStep::UseAppInstead);
            handled.insert(PageStep::NgcErrorUsePassword);
            PageOutcome::Handled { mfa: false }
        }
        PageStep::AzureError => {
            handled.insert(p);
            PageOutcome::Failed(AuthError::AuthenticationFailed {
                reason: String::from_str(detail),
                suggest_manual_mode: false,
                suggest_clear_cache: true,
            })
        }
        PageStep::InvalidUsername => {
            handled.insert(p);
            PageOutcome::Failed(AuthError::InvalidUsername {
                message: String::from_str("The username you entered may be incorrect or the account does not exist."),
            })
        }
        PageStep::UsernameWarning => {
            handled.insert(p);
            PageOutcome::Failed(AuthError::UsernameWarning { warning_text: trim_text(detail) })
        }
        PageStep::IncorrectPassword => {
            handled.insert(p);
            PageOutcome::Failed(AuthError::IncorrectPassword {
                message: String::from_str("Your account or password is incorrect."),
            })
        }
        PageStep::GenericError => {
            handled.insert(p);
            let mut reason = String::from_str("Unexpected error encountered:\n\n");
            push_str(&mut reason, detail);
            PageOutcome::Failed(AuthError::AuthenticationFailed {
                reason,
                suggest_manual_mode: true,
                suggest_clear_cache: true,
            })
        }
        PageStep::UnexpectedState => {
            handled.insert(p);
            let mut reason = String::from_str("Unexpected page state:\n\n");
            push_str(&mut reason, detail);
            PageOutcome::Failed(AuthError::AuthenticationFailed {
                reason,
                suggest_manual_mode: true,
                suggest_clear_cache: false,
            })
        }
        PageStep::NgcPush | PageStep::Push => {
            handled.insert(p);
            PageOutcome::Handled { mfa: true }
        }
        _ => {
            handled.insert(p);
            PageOutcome::Handled { mfa: false }
        }
    }
}

/// A guarded step that recognised the page is not tried again on that page.
pub proof fn law_handled_step_not_repeated(h: Set<PageStep>, p: PageStep)
    requires
        is_guarded(p),
    ensures
        handled_after(h, p).contains(p),
{
}

/// Polls without progress after which the automation counts as stuck.
pub const STUCK_THRESHOLD: u64 = 8;
/// Page resets allowed before the login gives up.
pub const MAX_RESETS: u64 = 2;
/// Polls without a handler after which the login gives up.
pub const MAX_RETRIES: u64 = 20;

/// What the login loop does after trying the page handlers.
#[derive(Debug, Clone)]
pub enum StuckAction {
    /// Carry on polling.
    Continue,
    /// The automation is stuck: navigate back to the login URL.
    ResetPage,
    /// Too many resets: give up with this error.
    Fail(AuthError),
}

/// The poll counts as stuck: too many polls without progress, and not
/// waiting for a phone approval.
pub open spec fn is_stuck(retries_after: u64, matched: bool, mfa: bool) -> bool {
    retries_after > STUCK_THRESHOLD && !(matched && mfa)
}

#[derive(Debug, Clone, Copy, PartialEq, Eq, Structural)]
pub enum StuckKind {
    Continue,
    Reset,
    GiveUp,
}

/// The kind of decision after the handlers ran, from whether the poll is
/// stuck and the reset count after it.
pub open spec fn stuck_action_kind(stuck: bool, reset_count_after: u64) -> StuckKind {
    if !stuck {
        StuckKind::Continue
    } else if reset_count_after <= MAX_RESETS {
        StuckKind::Reset
    } else {
        StuckKind::GiveUp
    }
}

/// The progress of one login: the page last seen, polls without progress,
/// page resets so far, and the steps handled on the current page.
pub struct LoginProgress {
    pub last_url: String,
    pub retries: u64,
    pub reset_count: u64,
    pub handled: HandledSet,
}

pub open spec fn stuck_reason_text() -> Seq<char> {
    "Full Auto mode unable to complete login after 2 page resets. The authentication flow may have changed or network issues occurred."@
}

/// The start of every poll: `Some` ends the login (with the DSID, or with
/// `Cancelled` / a `BrowserError`), `None` carries on.
pub fn check_poll(cancelled: bool, poll: Result<Option<String>, String>) -> (r: Option<Result<String, AuthError>>)
    ensures
        cancelled ==> (r matches Some(Err(AuthError::Cancelled))),
        !cancelled ==> match poll {
            Ok(Some(d)) => r matches Some(Ok(s)) && s == d,
            Ok(None) => r is None,
            Err(e) => r matches Some(Err(AuthError::BrowserError { message }))
                && message@ == "Browser connection lost: "@ + e@,
        },
{
    if cancelled {
        return Some(Err(AuthError::Cancelled));
    }
    match poll {
        Ok(Some(d)) => Some(Ok(d)),
        Ok(None) => None,
        Err(e) => {
            let mut message = String::from_str("Browser connection lost: ");
            push_str(&mut message, e.as_str());
            Some(Err(AuthError::BrowserError { message }))
        }
    }
}

/// A cookie as the browser reports it.
pub struct BrowserCookie {
    pub name: String,
    pub domain: String,
    pub value: String,
}

/// The session cookie of the gateway: named `DSID`, with a domain that
/// contains the gateway's domain.
pub open spec fn is_dsid_cookie(c: BrowserCookie, domain: Seq<char>) -> bool {
    c.name@ == "DSID"@ && contains_text(c.domain@, domain)
}

/// The value of the first session cookie in the list.
pub open spec fn first_dsid(cookies: Seq<BrowserCookie>, domain: Seq<char>) -> Option<Seq<char>>
    decreases cookies.len(),
{
    if cookies.len() == 0 {
        None
    } else if is_dsid_cookie(cookies[0], domain) {
        Some(cookies[0].value@)
    } else {
        first_dsid(cookies.drop_first(), domain)
    }
}

/// Picks the DSID out of the browser's cookies: the value of the first
/// cookie named `DSID` whose domain contains `domain`.
pub fn pick_dsid(cookies: &Vec<BrowserCookie>, domain: &str) -> (r: Option<String>)
    ensures
        opt_string_view(r) == first_dsid(cookies@, domain@),
{
    let mut i: usize = 0;
    assert(cookies@.skip(0) =~= cookies@);
    while i < cookies.len()
        invariant
            i <= cookies.len(),
            first_dsid(cookies@.skip(i as int), domain@) == first_dsid(cookies@, domain@),
        decreases cookies.len() - i,
    {
        let c = &cookies[i];
        assert(cookies@.skip(i as int)[0] == cookies@[i as int]);
        proof {
            reveal_strlit("DSID");
        }
        if str_eq(c.name.as_str(), "DSID") && contains_str(c.domain.as_str(), domain) {
            return Some(c.value.clone());
        }
        assert(cookies@.skip(i as int).drop_first() =~= cookies@.skip(i + 1));
        i = i + 1;
    }
    assert(cookies@.skip(i as int) =~= Seq::<BrowserCookie>::empty());
    None
}

/// What the login loop does after the start of a poll.
#[derive(Debug)]
pub enum PollStep {
    /// The login is over, with the DSID or an error.
    Finish(Result<String, AuthError>),
    /// Try the page handlers on the current page.
    HandlePage,
    /// Wait for the next poll (manual mode: the user logs in).
    Wait,
}

impl LoginProgress {
    pub closed spec fn wf(&self) -> bool {
        self.handled.wf()
    }

    pub fn new() -> (p: LoginProgress)
        ensures
            p.wf(),
            p.last_url@ == Seq::<char>::empty(),
            p.retries == 0,
            p.reset_count == 0,
            p.handled@ == Set::<PageStep>::empty(),
    {
        LoginProgress { last_url: String::new(), retries: 0, reset_count: 0, handled: HandledSet::new() }
    }

    /// Notes the page URL of this poll: a new page restarts the count of
    /// polls without progress and forgets the steps handled on the old one.
    pub fn observe_url(&mut self, url: &str) -> (changed: bool)
        requires
            old(self).wf(),
        ensures
            final(self).wf(),
            changed == (url@ != old(self).last_url@),
            changed ==> final(self).last_url@ == url@ && final(self).retries == 0
                && final(self).handled@ == Set::<PageStep>::empty(),
            !changed ==> final(self).last_url@ == old(self).last_url@ && final(self).retries == old(self).retries
                && final(self).handled@ == old(self).handled@,
            final(self).reset_count == old(self).reset_count,
    {
        if str_eq(url, self.last_url.as_str()) {
            return false;
        }
        self.last_url = String::from_str(url);
        self.retries = 0;
        self.handled.clear();
        true
    }

    /// The start of a poll: a cancel request, a DSID cookie or a lost browser
    /// ends the login (`check_poll`); otherwise the page `url` is noted and,
    /// unless the user logs in by hand (`no_auto_login`), the handlers run.
    /// In manual mode no page is ever handled, so the login ends only with
    /// the DSID, a cancel, or a lost browser.
    pub fn begin_poll(&mut self, cancelled: bool, poll: Result<Option<String>, String>, url: &str, no_auto_login: bool)
        -> (r: PollStep)
        requires
            old(self).wf(),
        ensures
            final(self).wf(),
            final(self).reset_count == old(self).reset_count,
            !(!cancelled && poll matches Ok(None)) ==> final(self).last_url == old(self).last_url
                && final(self).retries == old(self).retries
                && final(self).handled@ == old(self).handled@,
            cancelled ==> (r matches PollStep::Finish(Err(AuthError::Cancelled))),
            !cancelled ==> match poll {
                Ok(Some(d)) => r matches PollStep::Finish(Ok(s)) && s == d,
                Err(e) => r matches PollStep::Finish(Err(AuthError::BrowserError { message }))
                    && message@ == "Browser connection lost: "@ + e@,
                Ok(None) => {
                    &&& (if url@ != old(self).last_url@ {
                        final(self).last_url@ == url@ && final(self).retries == 0
                            && final(self).handled@ == Set::<PageStep>::empty()
                    } else {
                        final(self).last_url@ == old(self).last_url@ && final(self).retries == old(self).retries
                            && final(self).handled@ == old(self).handled@
                    })
                    &&& (if no_auto_login { r is Wait } else { r is HandlePage })
                },
            },
            no_auto_login ==> !(r is HandlePage),
            r matches PollStep::Finish(Err(e)) ==> (e is Cancelled || e is BrowserError),
    {
        match check_poll(cancelled, poll) {
            Some(end) => PollStep::Finish(end),
            None => {
                self.observe_url(url);
                if no_auto_login {
                    PollStep::Wait
                } else {
                    PollStep::HandlePage
                }
            },
        }
    }

    /// After trying the handlers: `matched` when one recognised the page,
    /// `mfa` when that page waits for a phone approval. A poll without a
    /// handler counts towards being stuck; a stuck login that is not waiting
    /// for MFA resets the page, at most `MAX_RESETS` times, then gives up.
    pub fn after_page(&mut self, matched: bool, mfa: bool) -> (r: StuckAction)
        requires
            old(self).wf(),
            old(self).retries < u64::MAX,
            old(self).reset_count < u64::MAX,
        ensures
            final(self).wf(),
            final(self).handled@ == old(self).handled@,
            final(self).last_url == old(self).last_url,
            final(self).retries == (if matched { 0 } else { old(self).retries + 1 }),
            ({
                let stuck = is_stuck(final(self).retries, matched, mfa);
                &&& final(self).reset_count == (if stuck { old(self).reset_count + 1 } else { old(self).reset_count as int })
                &&& stuck_action_kind(stuck, final(self).reset_count) == StuckKind::Continue ==> r is Continue
                &&& stuck_action_kind(stuck, final(self).reset_count) == StuckKind::Reset ==> r is ResetPage
                &&& stuck_action_kind(stuck, final(self).reset_count) == StuckKind::GiveUp ==> (r matches StuckAction::Fail(
                    AuthError::AuthenticationFailed { reason, suggest_manual_mode, suggest_clear_cache })
                    && reason@ == stuck_reason_text() && suggest_manual_mode && suggest_clear_cache)
            }),
    {
        let waiting = if matched {
            self.retries = 0;
            mfa
        } else {
            self.retries = self.retries + 1;
            false
        };
        if self.retries > STUCK_THRESHOLD && !waiting {
            self.reset_count = self.reset_count + 1;
            if self.reset_count > MAX_RESETS {
                return StuckAction::Fail(AuthError::AuthenticationFailed {
                    reason: String::from_str(
                        "Full Auto mode unable to complete login after 2 page resets. The authentication flow may have changed or network issues occurred.",
                    ),
                    suggest_manual_mode: true,
                    suggest_clear_cache: true,
                });
            }
            return StuckAction::ResetPage;
        }
        StuckAction::Continue
    }

    /// After navigating back to the login URL: a successful navigation starts
    /// the page afresh.
    pub fn after_reset(&mut self, navigated: bool)
        requires
            old(self).wf(),
        ensures
            final(self).wf(),
            final(self).reset_count == old(self).reset_count,
            navigated ==> final(self).retries == 0 && final(self).last_url@ == Seq::<char>::empty()
                && final(self).handled@ == Set::<PageStep>::empty(),
            !navigated ==> final(self).retries == old(self).retries && final(self).last_url == old(self).last_url
                && final(self).handled@ == old(self).handled@,
    {
        if navigated {
            self.handled.clear();
            self.retries = 0;
            self.last_url = String::new();
        }
    }

    /// The error when no handler matched for more than `MAX_RETRIES` polls.
    pub fn retries_exhausted(&self) -> (r: Option<AuthError>)
        ensures
            self.retries <= MAX_RETRIES ==> r is None,
            self.retries > MAX_RETRIES ==> (r matches Some(AuthError::AuthenticationFailed {
                reason, suggest_manual_mode, suggest_clear_cache })
                && reason@ == "Could not find a handler for the current page after 20 retries: "@ + self.last_url@
                && suggest_manual_mode && !suggest_clear_cache),
    {
        if self.retries > MAX_RETRIES {
            let mut reason = String::from_str("Could not find a handler for the current page after 20 retries: ");
            push_str(&mut reason, self.last_url.as_str());
            Some(AuthError::AuthenticationFailed { reason, suggest_manual_mode: true, suggest_clear_cache: false })
        } else {
            None
        }
    }
}

/// A login never resets the page more than `MAX_RESETS` times: a reset is
/// decided only while the count of resets (this one included) is at most
/// `MAX_RESETS`, and each stuck poll counts one up; past that the login gives up.
pub proof fn law_resets_bounded(stuck: bool, reset_count_after: u64)
    ensures
        stuck_action_kind(stuck, reset_count_after) == StuckKind::Reset ==> reset_count_after <= MAX_RESETS,
        stuck && reset_count_after > MAX_RESETS ==> stuck_action_kind(stuck, reset_count_after) == StuckKind::GiveUp,
        !stuck ==> stuck_action_kind(stuck, reset_count_after) == StuckKind::Continue,
{
}

/// Waiting for a phone approval never counts as being stuck, however long
/// the approval takes.
pub proof fn law_mfa_wait_is_not_stuck(retries_after: u64)
    ensures
        !is_stuck(retries_after, true, true),
{
}

} // verus!
