//! Cancellation, the credentials-provider interface, and escaping of text
//! that is spliced into JavaScript string literals.

use std::sync::atomic::AtomicBool;
use std::sync::atomic::Ordering;
use std::sync::Arc;
use vstd::prelude::*;
use vstd::string::*;
use crate::text::push_char;

verus! {

/// A flag shared by clones: once any clone is cancelled, all of them report it.
#[derive(Clone)]
pub struct CancellationToken(Arc<AtomicBool>);

impl CancellationToken {
    /// A fresh flag, not yet cancelled. The flag is a std `AtomicBool`, to
    /// which no specification gives a value, so no contract states it.
    pub fn new() -> Self {
        CancellationToken(Arc::new(AtomicBool::new(false)))
    }

    pub fn cancel(&self) {
        self.0.store(true, Ordering::SeqCst);
    }

    /// Whether any clone of this token has been cancelled. The answer depends
    /// on what other threads did, so no contract fixes it.
    pub fn is_cancelled(&self) -> bool {
        self.0.load(Ordering::SeqCst)
    }
}

/// A check that the page a prompt belongs to is still showing.
pub trait PageGuard: Send + Sync {
    /// `false` once the page changed under the prompt.
    fn page_unchanged(&self) -> bool;
}

/// Source of credentials and user input during login.
///
/// `request_text` / `request_password` return `None` when the prompt was
/// dismissed externally (e.g. the page changed while the user was typing).
pub trait CredentialsProvider: Send + Sync {
    fn request_text(&self, msg: &str) -> Option<String>;

    fn request_password(&self, msg: &str) -> Option<String>;

    fn on_mfa_push(&self, code: &str) {
    }

    fn on_mfa_complete(&self) {
    }

    /// Installs a guard that is polled while a prompt is visible: when it
    /// returns `false` the page changed, the prompt is dismissed and
    /// `request_*` returns `None`.
    fn set_page_guard(&self, guard: Box<dyn PageGuard>) {
    }

    /// Removes any active page guard.
    fn clear_page_guard(&self) {
    }
}

/// The escape of one character inside a single-quoted JavaScript literal:
/// a backslash and a quote get a backslash in front, anything else stays.
pub open spec fn escape_char(c: char) -> Seq<char> {
    if c == '\\' {
        seq!['\\', '\\']
    } else if c == '\'' {
        seq!['\\', '\'']
    } else {
        seq![c]
    }
}

pub open spec fn spec_js_escape(s: Seq<char>) -> Seq<char>
    decreases s.len(),
{
    if s.len() == 0 {
        seq![]
    } else {
        escape_char(s[0]) + spec_js_escape(s.drop_first())
    }
}

/// Reads an escaped literal body back: a backslash takes the next character
/// literally.
pub open spec fn spec_js_unescape(t: Seq<char>) -> Seq<char>
    decreases t.len(),
{
    if t.len() == 0 {
        seq![]
    } else if t[0] == '\\' && t.len() >= 2 {
        seq![t[1]] + spec_js_unescape(t.skip(2))
    } else {
        seq![t[0]] + spec_js_unescape(t.drop_first())
    }
}

/// A literal body that a JavaScript parser reads to its end without meeting
/// an unescaped quote or a dangling backslash.
pub open spec fn safe_literal_body(t: Seq<char>) -> bool
    decreases t.len(),
{
    if t.len() == 0 {
        true
    } else if t[0] == '\\' {
        t.len() >= 2 && safe_literal_body(t.skip(2))
    } else {
        t[0] != '\'' && safe_literal_body(t.drop_first())
    }
}

proof fn lemma_escape_append(a: Seq<char>, c: char)
    ensures
        spec_js_escape(a.push(c)) == spec_js_escape(a) + escape_char(c),
    decreases a.len(),
{
    if a.len() == 0 {
        assert(a.push(c).drop_first() =~= Seq::<char>::empty());
        assert(spec_js_escape(Seq::<char>::empty()) == Seq::<char>::empty());
        assert(spec_js_escape(a.push(c)) =~= escape_char(c));
    } else {
        lemma_escape_append(a.drop_first(), c);
        assert(a.push(c).drop_first() =~= a.drop_first().push(c));
        assert(spec_js_escape(a.push(c)) =~= spec_js_escape(a) + escape_char(c));
    }
}

/// Escaping then reading back gives the text back unchanged.
pub proof fn law_js_escape_round_trip(s: Seq<char>)
    ensures
        spec_js_unescape(spec_js_escape(s)) == s,
    decreases s.len(),
{
    if s.len() > 0 {
        law_js_escape_round_trip(s.drop_first());
        let e = spec_js_escape(s);
        let rest = spec_js_escape(s.drop_first());
        if s[0] == '\\' || s[0] == '\'' {
            assert(e.skip(2) =~= rest);
            assert(spec_js_unescape(e) =~= seq![s[0]] + spec_js_unescape(rest));
        } else {
            assert(e.drop_first() =~= rest);
            assert(spec_js_unescape(e) =~= seq![s[0]] + spec_js_unescape(rest));
        }
        assert(seq![s[0]] + s.drop_first() =~= s);
    }
}

/// Escaped text never closes the literal it is placed in: every quote and
/// backslash in it is consumed by an escape.
pub proof fn law_js_escape_is_safe(s: Seq<char>)
    ensures
        safe_literal_body(spec_js_escape(s)),
    decreases s.len(),
{
    if s.len() > 0 {
        law_js_escape_is_safe(s.drop_first());
        let e = spec_js_escape(s);
        let rest = spec_js_escape(s.drop_first());
        if s[0] == '\\' || s[0] == '\'' {
            assert(e.skip(2) =~= rest);
        } else {
            assert(e.drop_first() =~= rest);
        }
    }
}

/// Escapes JavaScript strings to prevent injection.
pub fn js_escape(s: &str) -> (r: String)
    ensures
        r@ == spec_js_escape(s@),
{
    let n = s.unicode_len();
    let mut out = String::new();
    let mut i: usize = 0;
    while i < n
        invariant
            i <= n,
            n == s@.len(),
            out@ == spec_js_escape(s@.subrange(0, i as int)),
        decreases n - i,
    {
        let c = s.get_char(i);
        if c == '\\' {
            push_char(&mut out, '\\');
            push_char(&mut out, '\\');
        } else if c == '\'' {
            push_char(&mut out, '\\');
            push_char(&mut out, '\'');
        } else {
            push_char(&mut out, c);
        }
        proof {
            lemma_escape_append(s@.subrange(0, i as int), c);
            assert(s@.subrange(0, i as int).push(c) =~= s@.subrange(0, i + 1));
        }
        i = i + 1;
    }
    assert(s@.subrange(0, n as int) =~= s@);
    out
}

} // verus!
