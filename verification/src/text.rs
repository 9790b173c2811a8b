//! Small string building blocks shared by the formatting code: decimal
//! rendering with zero padding, character-wise equality and prefix search.

use vstd::prelude::*;
use vstd::string::*;

verus! {

/// The ASCII digit for `d`, for `0 <= d < 10`.
pub open spec fn digit_char(d: int) -> char {
    if d == 0 { '0' }
    else if d == 1 { '1' }
    else if d == 2 { '2' }
    else if d == 3 { '3' }
    else if d == 4 { '4' }
    else if d == 5 { '5' }
    else if d == 6 { '6' }
    else if d == 7 { '7' }
    else if d == 8 { '8' }
    else { '9' }
}

/// Decimal rendering of `n` without leading zeros (`0` renders as `"0"`).
pub open spec fn decimal(n: nat) -> Seq<char>
    decreases n,
{
    if n < 10 {
        seq![digit_char(n as int)]
    } else {
        decimal(n / 10).push(digit_char((n % 10) as int))
    }
}

/// `s` left-padded with `'0'` to at least `width` characters.
pub open spec fn zero_pad(s: Seq<char>, width: nat) -> Seq<char> {
    if s.len() >= width {
        s
    } else {
        Seq::new((width - s.len()) as nat, |i: int| '0') + s
    }
}

/// Appends one character to a `String`.
/// Calls `String::push`, whose documentation states that it appends the given
/// `char` to the end of the string; the contract says exactly that.
#[verifier::external_body]
pub(crate) fn push_char(s: &mut String, c: char)
    ensures
        final(s)@ == old(s)@.push(c),
{
    s.push(c)
}

/// Appends `src` to `s`.
pub fn push_str(s: &mut String, src: &str)
    ensures
        final(s)@ == old(s)@ + src@,
{
    s.append(src);
}

fn digit(d: u64) -> (c: char)
    requires
        d < 10,
    ensures
        c == digit_char(d as int),
{
    if d == 0 { '0' }
    else if d == 1 { '1' }
    else if d == 2 { '2' }
    else if d == 3 { '3' }
    else if d == 4 { '4' }
    else if d == 5 { '5' }
    else if d == 6 { '6' }
    else if d == 7 { '7' }
    else if d == 8 { '8' }
    else { '9' }
}

/// The digits of `n`, most significant first.
fn decimal_digits(n: u64) -> (v: Vec<char>)
    ensures
        v@ == decimal(n as nat),
    decreases n,
{
    if n < 10 {
        let mut v = Vec::new();
        v.push(digit(n));
        v
    } else {
        let mut v = decimal_digits(n / 10);
        v.push(digit(n % 10));
        v
    }
}

/// Appends the decimal rendering of `n`, left-padded with zeros to `width`.
pub fn push_decimal(s: &mut String, n: u64, width: usize)
    ensures
        final(s)@ == old(s)@ + zero_pad(decimal(n as nat), width as nat),
{
    let digits = decimal_digits(n);
    let len = digits.len();
    let ghost start = s@;
    if len < width {
        let pad = width - len;
        let mut i: usize = 0;
        while i < pad
            invariant
                i <= pad,
                pad == width - len,
                s@ == start + Seq::new(i as nat, |k: int| '0'),
            decreases pad - i,
        {
            push_char(s, '0');
            i = i + 1;
            assert(s@ =~= start + Seq::new(i as nat, |k: int| '0'));
        }
    }
    let ghost mid = s@;
    let mut j: usize = 0;
    while j < len
        invariant
            j <= len,
            len == digits@.len(),
            s@ == mid + digits@.subrange(0, j as int),
        decreases len - j,
    {
        push_char(s, digits[j]);
        j = j + 1;
        assert(s@ =~= mid + digits@.subrange(0, j as int));
    }
    assert(digits@.subrange(0, len as int) =~= digits@);
    assert(s@ =~= start + zero_pad(decimal(n as nat), width as nat));
}

/// Character-wise equality of two string slices.
pub fn str_eq(a: &str, b: &str) -> (r: bool)
    ensures
        r == (a@ == b@),
{
    let n = a.unicode_len();
    let m = b.unicode_len();
    if n != m {
        return false;
    }
    let mut i: usize = 0;
    while i < n
        invariant
            i <= n,
            n == a@.len(),
            m == b@.len(),
            n == m,
            forall|k: int| 0 <= k < i ==> a@[k] == b@[k],
        decreases n - i,
    {
        if a.get_char(i) != b.get_char(i) {
            return false;
        }
        i = i + 1;
    }
    assert(a@ =~= b@);
    true
}


/// `sub` occurs in `s` at position `i`.
pub open spec fn occurs_at(s: Seq<char>, sub: Seq<char>, i: int) -> bool {
    0 <= i && i + sub.len() <= s.len() && s.subrange(i, i + sub.len()) == sub
}

/// `sub` occurs somewhere in `s`.
pub open spec fn contains_text(s: Seq<char>, sub: Seq<char>) -> bool {
    exists|i: int| #[trigger] occurs_at(s, sub, i)
}

fn matches_at(s: &str, sub: &str, i: usize) -> (r: bool)
    requires
        i + sub@.len() <= s@.len(),
    ensures
        r == occurs_at(s@, sub@, i as int),
{
    let m = sub.unicode_len();
    let n = s.unicode_len();
    let mut k: usize = 0;
    while k < m
        invariant
            k <= m,
            m == sub@.len(),
            n == s@.len(),
            i + m <= n,
            forall|j: int| 0 <= j < k ==> s@[i + j] == sub@[j],
        decreases m - k,
    {
        if s.get_char(i + k) != sub.get_char(k) {
            assert(s@.subrange(i as int, i + m)[k as int] != sub@[k as int]);
            return false;
        }
        k = k + 1;
    }
    assert(s@.subrange(i as int, i + m) =~= sub@);
    true
}

/// Whether `sub` occurs in `s`.
pub fn contains_str(s: &str, sub: &str) -> (r: bool)
    ensures
        r == contains_text(s@, sub@),
{
    let n = s.unicode_len();
    let m = sub.unicode_len();
    if m > n {
        assert forall|i: int| !occurs_at(s@, sub@, i) by {}
        return false;
    }
    if m == 0 {
        assert(s@.subrange(0, 0) =~= sub@);
        assert(occurs_at(s@, sub@, 0));
        return true;
    }
    let mut i: usize = 0;
    while i <= n - m
        invariant
            0 < m <= n,
            n == s@.len(),
            m == sub@.len(),
            forall|j: int| 0 <= j < i ==> !occurs_at(s@, sub@, j),
        decreases n - m + 1 - i,
    {
        if matches_at(s, sub, i) {
            return true;
        }
        i = i + 1;
    }
    assert forall|j: int| !occurs_at(s@, sub@, j) by {
        if 0 <= j && j + m <= n {
            assert(j < i);
        }
    }
    false
}

/// Whether `s` starts with `prefix`.
pub fn starts_with_str(s: &str, prefix: &str) -> (r: bool)
    ensures
        r == (prefix@.len() <= s@.len() && s@.take(prefix@.len() as int) == prefix@),
{
    let n = s.unicode_len();
    let m = prefix.unicode_len();
    if m > n {
        return false;
    }
    let r = matches_at(s, prefix, 0);
    assert(s@.subrange(0, m as int) =~= s@.take(m as int));
    r
}

/// Whether `s` ends with `suffix`.
pub fn ends_with_str(s: &str, suffix: &str) -> (r: bool)
    ensures
        r == (suffix@.len() <= s@.len() && s@.subrange(s@.len() - suffix@.len(), s@.len() as int) == suffix@),
{
    let n = s.unicode_len();
    let m = suffix.unicode_len();
    if m > n {
        return false;
    }
    matches_at(s, suffix, n - m)
}

/// White space as `char::is_whitespace` defines it (the Unicode
/// `White_Space` property).
pub open spec fn is_white_space(c: char) -> bool {
    ||| '\u{9}' <= c <= '\u{d}'
    ||| c == ' '
    ||| c == '\u{85}'
    ||| c == '\u{a0}'
    ||| c == '\u{1680}'
    ||| '\u{2000}' <= c <= '\u{200a}'
    ||| c == '\u{2028}'
    ||| c == '\u{2029}'
    ||| c == '\u{202f}'
    ||| c == '\u{205f}'
    ||| c == '\u{3000}'
}

pub fn char_is_white_space(c: char) -> (r: bool)
    ensures
        r == is_white_space(c),
{
    ('\u{9}' <= c && c <= '\u{d}') || c == ' ' || c == '\u{85}' || c == '\u{a0}' || c == '\u{1680}'
        || ('\u{2000}' <= c && c <= '\u{200a}') || c == '\u{2028}' || c == '\u{2029}' || c == '\u{202f}'
        || c == '\u{205f}' || c == '\u{3000}'
}

/// Length of the longest prefix of `s` whose characters are all white space
/// (`ws`) or all not white space (`!ws`).
pub open spec fn run_len(s: Seq<char>, ws: bool) -> int
    decreases s.len(),
{
    if s.len() > 0 && is_white_space(s[0]) == ws {
        1 + run_len(s.drop_first(), ws)
    } else {
        0
    }
}

pub proof fn lemma_run_len(s: Seq<char>, ws: bool)
    ensures
        0 <= run_len(s, ws) <= s.len(),
        run_len(s, ws) < s.len() ==> is_white_space(s[run_len(s, ws)]) != ws,
        forall|k: int| 0 <= k < run_len(s, ws) ==> is_white_space(#[trigger] s[k]) == ws,
    decreases s.len(),
{
    if s.len() > 0 && is_white_space(s[0]) == ws {
        lemma_run_len(s.drop_first(), ws);
        assert forall|k: int| 0 <= k < run_len(s, ws) implies is_white_space(#[trigger] s[k]) == ws by {
            if k > 0 {
                assert(s[k] == s.drop_first()[k - 1]);
            }
        }
    }
}

/// Position after the run of white space (`ws`) or of other characters
/// (`!ws`) that starts at `from`.
pub fn skip_run(s: &str, from: usize, ws: bool) -> (r: usize)
    requires
        from <= s@.len(),
    ensures
        r == from + run_len(s@.skip(from as int), ws),
        from <= r <= s@.len(),
{
    let n = s.unicode_len();
    let mut i = from;
    let ghost t = s@.skip(from as int);
    proof {
        lemma_run_len(t, ws);
    }
    while i < n
        invariant
            from <= i <= n,
            n == s@.len(),
            t == s@.skip(from as int),
            i - from <= run_len(t, ws),
            0 <= run_len(t, ws) <= t.len(),
            run_len(t, ws) < t.len() ==> is_white_space(t[run_len(t, ws)]) != ws,
            forall|k: int| 0 <= k < run_len(t, ws) ==> is_white_space(#[trigger] t[k]) == ws,
            forall|k: int| 0 <= k < i - from ==> is_white_space(#[trigger] t[k]) == ws,
        decreases n - i,
    {
        if char_is_white_space(s.get_char(i)) != ws {
            assert(t[i - from] == s@[i as int]);
            return i;
        }
        assert(t[i - from] == s@[i as int]);
        i = i + 1;
    }
    i
}

/// Length of the run of white space at the end of `s`.
pub open spec fn trailing_ws_len(s: Seq<char>) -> int
    decreases s.len(),
{
    if s.len() > 0 && is_white_space(s.last()) {
        1 + trailing_ws_len(s.drop_last())
    } else {
        0
    }
}

/// `s` without leading and trailing white space, as `str::trim` gives it.
pub open spec fn trimmed(s: Seq<char>) -> Seq<char> {
    let t = s.skip(run_len(s, true));
    t.take(t.len() - trailing_ws_len(t))
}

proof fn lemma_trailing_ws_len(s: Seq<char>)
    ensures
        0 <= trailing_ws_len(s) <= s.len(),
    decreases s.len(),
{
    if s.len() > 0 && is_white_space(s.last()) {
        lemma_trailing_ws_len(s.drop_last());
    }
}

/// `s` without leading and trailing white space (`str::trim`).
pub fn trim_text(s: &str) -> (r: String)
    ensures
        r@ == trimmed(s@),
{
    let n = s.unicode_len();
    let a = skip_run(s, 0, true);
    assert(s@.skip(0) =~= s@);
    let ghost t = s@.skip(a as int);
    let mut j = n;
    assert(s@.subrange(a as int, n as int) =~= t);
    while j > a
        invariant
            a <= j <= n,
            n == s@.len(),
            t == s@.skip(a as int),
            trailing_ws_len(s@.subrange(a as int, j as int)) + (n - j) == trailing_ws_len(t),
        ensures
            a <= j <= n,
            trailing_ws_len(s@.subrange(a as int, j as int)) + (n - j) == trailing_ws_len(t),
            j == a || !is_white_space(s@[j - 1]),
        decreases j - a,
    {
        if !char_is_white_space(s.get_char(j - 1)) {
            break;
        }
        proof {
            let sub = s@.subrange(a as int, j as int);
            assert(sub.last() == s@[j - 1]);
            assert(sub.drop_last() =~= s@.subrange(a as int, j - 1));
        }
        j = j - 1;
    }
    proof {
        let sub = s@.subrange(a as int, j as int);
        if j > a {
            assert(sub.last() == s@[j - 1]);
        }
        assert(trailing_ws_len(sub) == 0);
        lemma_trailing_ws_len(t);
        assert(t.take(t.len() - trailing_ws_len(t)) =~= sub);
    }
    String::from_str(s.substring_char(a, j))
}

/// `s` with every occurrence of `from` (non-empty) replaced by `to`,
/// scanning from the left without overlaps, as `str::replace` does.
pub open spec fn replaced(s: Seq<char>, from: Seq<char>, to: Seq<char>) -> Seq<char>
    recommends
        from.len() > 0,
    decreases s.len(),
{
    if s.len() == 0 || from.len() == 0 {
        s
    } else if from.len() <= s.len() && s.take(from.len() as int) == from {
        to + replaced(s.skip(from.len() as int), from, to)
    } else {
        seq![s[0]] + replaced(s.drop_first(), from, to)
    }
}

/// Replaces every occurrence of `from` in `s` with `to` (`str::replace`).
pub fn replace_text(s: &str, from: &str, to: &str) -> (r: String)
    requires
        from@.len() > 0,
    ensures
        r@ == replaced(s@, from@, to@),
{
    let n = s.unicode_len();
    let m = from.unicode_len();
    let mut out = String::new();
    let mut i: usize = 0;
    assert(s@.skip(0) =~= s@);
    while i < n
        invariant
            i <= n,
            n == s@.len(),
            m == from@.len(),
            m > 0,
            out@ + replaced(s@.skip(i as int), from@, to@) == replaced(s@, from@, to@),
        decreases n - i,
    {
        let ghost rest = s@.skip(i as int);
        if m <= n - i && matches_at(s, from, i) {
            proof {
                assert(rest.take(m as int) =~= s@.subrange(i as int, i + m));
                assert(rest.skip(m as int) =~= s@.skip(i + m));
            }
            push_str(&mut out, to);
            assert((out@) + replaced(s@.skip(i + m), from@, to@) =~= replaced(s@, from@, to@)) by {
                assert(replaced(rest, from@, to@) == to@ + replaced(rest.skip(m as int), from@, to@));
            }
            i = i + m;
        } else {
            proof {
                if m <= rest.len() {
                    assert(rest.take(m as int) =~= s@.subrange(i as int, i + m));
                }
                assert(rest.drop_first() =~= s@.skip(i + 1));
                assert(rest[0] == s@[i as int]);
            }
            let c = s.get_char(i);
            push_char(&mut out, c);
            assert((out@) + replaced(s@.skip(i + 1), from@, to@) =~= replaced(s@, from@, to@)) by {
                assert(replaced(rest, from@, to@) == seq![c] + replaced(rest.drop_first(), from@, to@));
            }
            i = i + 1;
        }
    }
    assert(s@.skip(n as int) =~= Seq::<char>::empty());
    out
}

} // verus!
