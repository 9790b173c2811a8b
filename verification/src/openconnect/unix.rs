//! Unix: escalation tools, tunnel interface names, the openconnect command
//! line and the vpnc-script that sets up routes and DNS.

use vstd::prelude::*;
use vstd::string::*;
use crate::openconnect::{
    file_name_of, found_by_which, is_file, is_plain_name, opt_string_view, which_path, resolve_among, resolves_to,
    which_may_answer, which_resolves_to,
    strings_view, tool_base, tool_base_name,
};
use crate::session::TunnelMode;
use crate::text::{
    decimal, is_white_space, push_decimal, push_str, replace_text, replaced, run_len, skip_run,
    starts_with_str, str_eq, trim_text, trimmed,
};

verus! {

pub open spec fn sudo_family(base: Seq<char>) -> bool {
    base == "sudo"@ || base == "sudo-rs"@
}

pub open spec fn unix_tools() -> Seq<Seq<char>> {
    seq!["sudo"@, "sudo-rs"@, "pkexec"@]
}

fn unix_tool_list() -> (v: Vec<String>)
    ensures
        strings_view(v@) == unix_tools(),
{
    let mut v: Vec<String> = Vec::new();
    v.push(String::from_str("sudo"));
    v.push(String::from_str("sudo-rs"));
    v.push(String::from_str("pkexec"));
    assert(strings_view(v@) =~= unix_tools());
    v
}

/// Resolves which escalation tool will be used: `run_command` first when it
/// is installed, then `sudo`, `sudo-rs` and `pkexec`.
pub fn resolve_escalation_tool(run_command: &Option<String>) -> (r: Option<String>)
    ensures
        exists|custom_found: bool, found: Seq<bool>| #[trigger] resolves_to(
            unix_tools(), opt_string_view(*run_command), custom_found, found, opt_string_view(r)),
        which_resolves_to(unix_tools(), opt_string_view(*run_command), opt_string_view(r)),
        run_command matches Some(c) ==> (!which_may_answer(c@, false) ==> opt_string_view(r) == Some(c@)),
{
    let tools = unix_tool_list();
    resolve_among(&tools, run_command)
}

/// The candidates that were found, in order.
pub open spec fn filter_found(cands: Seq<Seq<char>>, found: Seq<bool>) -> Seq<Seq<char>>
    decreases cands.len(),
{
    if cands.len() == 0 || found.len() == 0 {
        seq![]
    } else if found[0] {
        seq![cands[0]] + filter_found(cands.drop_first(), found.drop_first())
    } else {
        filter_found(cands.drop_first(), found.drop_first())
    }
}

proof fn lemma_filter_found_push(cands: Seq<Seq<char>>, found: Seq<bool>, i: int)
    requires
        0 <= i < cands.len(),
        cands.len() == found.len(),
    ensures
        filter_found(cands.take(i + 1), found.take(i + 1))
            == filter_found(cands.take(i), found.take(i)) + (if found[i] { seq![cands[i]] } else { seq![] }),
    decreases i,
{
    if i == 0 {
        assert(cands.take(1).drop_first() =~= Seq::<Seq<char>>::empty());
        assert(found.take(1).drop_first() =~= Seq::<bool>::empty());
        assert(filter_found(cands.take(0), found.take(0)) =~= Seq::<Seq<char>>::empty());
        assert(filter_found(Seq::<Seq<char>>::empty(), Seq::<bool>::empty()) =~= Seq::<Seq<char>>::empty());
    } else {
        lemma_filter_found_push(cands.drop_first(), found.drop_first(), i - 1);
        assert(cands.take(i + 1).drop_first() =~= cands.drop_first().take(i));
        assert(found.take(i + 1).drop_first() =~= found.drop_first().take(i));
        assert(cands.take(i).drop_first() =~= cands.drop_first().take(i - 1));
        assert(found.take(i).drop_first() =~= found.drop_first().take(i - 1));
        assert(cands.take(i + 1)[0] == cands[0]);
        assert(cands.take(i)[0] == cands[0]);
        assert(found.take(i + 1)[0] == found[0]);
        assert(found.take(i)[0] == found[0]);
    }
}

/// The tools whose entry in `found` is true, in order.
pub fn filter_available(tools: &Vec<String>, found: &Vec<bool>) -> (r: Vec<String>)
    requires
        tools.len() == found.len(),
    ensures
        strings_view(r@) == filter_found(strings_view(tools@), found@),
{
    let mut r: Vec<String> = Vec::new();
    let mut i: usize = 0;
    assert(strings_view(tools@).take(0) =~= Seq::<Seq<char>>::empty());
    assert(strings_view(r@) =~= filter_found(strings_view(tools@).take(0), found@.take(0)));
    while i < tools.len()
        invariant
            i <= tools.len(),
            tools.len() == found.len(),
            strings_view(r@) == filter_found(strings_view(tools@).take(i as int), found@.take(i as int)),
        decreases tools.len() - i,
    {
        proof {
            lemma_filter_found_push(strings_view(tools@), found@, i as int);
            assert(strings_view(tools@)[i as int] == tools@[i as int]@);
        }
        if found[i] {
            r.push(tools[i].clone());
        }
        assert(strings_view(r@) =~= filter_found(strings_view(tools@).take(i + 1), found@.take(i + 1)));
        i = i + 1;
    }
    assert(strings_view(tools@).take(tools.len() as int) =~= strings_view(tools@));
    assert(found@.take(found.len() as int) =~= found@);
    r
}

/// Returns the ordered list of escalation tools that are installed on this system.
pub fn list_available_escalation_tools() -> (r: Vec<String>)
    ensures
        exists|found: Seq<bool>| found.len() == 3 && #[trigger] filter_found(unix_tools(), found) == strings_view(r@),
{
    let tools = unix_tool_list();
    let mut found: Vec<bool> = Vec::new();
    let mut i: usize = 0;
    while i < tools.len()
        invariant
            i <= tools.len(),
            found.len() == i,
        decreases tools.len() - i,
    {
        found.push(found_by_which(tools[i].as_str()));
        i = i + 1;
    }
    let r = filter_available(&tools, &found);
    assert(strings_view(tools@).len() == tools@.len());
    assert(filter_found(unix_tools(), found@) == strings_view(r@));
    r
}

/// Returns `true` if the given tool needs a password piped via stdin
/// (i.e. it is `sudo` or `sudo-rs`, not `pkexec` which provides its own GUI prompt).
pub fn needs_password_prompt(tool: &str) -> (r: bool)
    ensures
        r == sudo_family(tool_base(tool@)),
        is_plain_name(tool@) ==> r == sudo_family(tool@),
{
    let base = tool_base_name(tool);
    str_eq(base.as_str(), "sudo") || str_eq(base.as_str(), "sudo-rs")
}

/// Returns `true` if the tool would block for a password right now:
/// it is `sudo` or `sudo-rs` and `credentials_cached` (the outcome of running
/// the tool's non-interactive check, `-n true`) says it would not go through
/// without one.
pub fn tool_requires_password(tool: &str, credentials_cached: bool) -> (r: bool)
    ensures
        r == (sudo_family(tool_base(tool@)) && !credentials_cached),
        is_plain_name(tool@) ==> r == (sudo_family(tool@) && !credentials_cached),
{
    needs_password_prompt(tool) && !credentials_cached
}

/// The `/sys/class/net` entry of an interface.
pub open spec fn sys_net_path_text(name: Seq<char>) -> Seq<char> {
    "/sys/class/net/"@ + name
}

pub fn sys_net_path(name: &str) -> (r: String)
    ensures
        r@ == sys_net_path_text(name@),
{
    let mut s = String::from_str("/sys/class/net/");
    push_str(&mut s, name);
    s
}

/// Returns the active VPN interface name: the configured name when its
/// `/sys/class/net` entry exists.
pub fn vpn_interface_name(configured_name: &str, sys_entry_exists: bool) -> (r: Option<String>)
    ensures
        opt_string_view(r) == (if sys_entry_exists { Some(configured_name@) } else { None }),
{
    if sys_entry_exists {
        Some(String::from_str(configured_name))
    } else {
        None
    }
}

/// The text of an unsigned `from_str` with largest value `max`: an optional
/// `+`, then one or more decimal digits whose value is at most `max`.
pub open spec fn parse_unsigned_spec(s: Seq<char>, max: nat) -> Option<nat> {
    let t = if s.len() > 0 && s[0] == '+' { s.drop_first() } else { s };
    if t.len() > 0 && all_digits(t) && digits_value(t) <= max {
        Some(digits_value(t))
    } else {
        None
    }
}

/// The text of `u8::from_str`.
pub open spec fn parse_u8_spec(s: Seq<char>) -> Option<nat> {
    parse_unsigned_spec(s, 255)
}

/// The text of `u32::from_str`.
pub open spec fn parse_u32_spec(s: Seq<char>) -> Option<nat> {
    parse_unsigned_spec(s, 0xffff_ffff)
}

pub open spec fn is_digit(c: char) -> bool {
    '0' <= c && c <= '9'
}

pub open spec fn all_digits(t: Seq<char>) -> bool {
    forall|i: int| 0 <= i < t.len() ==> is_digit(#[trigger] t[i])
}

pub open spec fn digits_value(t: Seq<char>) -> nat
    decreases t.len(),
{
    if t.len() == 0 {
        0
    } else {
        digits_value(t.drop_last()) * 10 + ((t.last() as int) - ('0' as int)) as nat
    }
}

/// Parses decimal text with an optional `+` as an unsigned `from_str` with
/// largest value `max` does.
fn parse_decimal(s: &str, max: u64) -> (r: Option<u64>)
    requires
        max <= 0xffff_ffff,
    ensures
        match parse_unsigned_spec(s@, max as nat) {
            Some(v) => r == Some(v as u64),
            None => r is None,
        },
{
    let n = s.unicode_len();
    let mut start: usize = 0;
    if n > 0 && s.get_char(0) == '+' {
        start = 1;
    }
    let ghost t = if s@.len() > 0 && s@[0] == '+' { s@.drop_first() } else { s@ };
    assert(t =~= s@.skip(start as int));
    if start >= n {
        return None;
    }
    let mut value: u64 = 0;
    let mut i: usize = start;
    while i < n
        invariant
            start <= i <= n,
            n == s@.len(),
            max <= 0xffff_ffff,
            t == s@.skip(start as int),
            t == (if s@.len() > 0 && s@[0] == '+' { s@.drop_first() } else { s@ }),
            all_digits(s@.subrange(start as int, i as int)),
            value == digits_value(s@.subrange(start as int, i as int)),
            value <= max,
        decreases n - i,
    {
        let c = s.get_char(i);
        if !('0' <= c && c <= '9') {
            proof {
                let k = i - start;
                assert(t[k] == c);
                assert(!is_digit(t[k]));
                assert(!all_digits(t));
            }
            return None;
        }
        let d = (c as u64) - ('0' as u64);
        let next = value * 10 + d;
        proof {
            let sub = s@.subrange(start as int, i + 1);
            assert(sub.drop_last() =~= s@.subrange(start as int, i as int));
            assert(sub.last() == c);
        }
        if next > max {
            proof {
                assert(t.subrange(0, (i + 1 - start) as int) =~= s@.subrange(start as int, i + 1));
                if all_digits(t) {
                    lemma_digits_value_prefix_bound(t, (i + 1 - start) as int);
                }
            }
            return None;
        }
        value = next;
        i = i + 1;
    }
    assert(s@.subrange(start as int, n as int) =~= t);
    Some(value)
}

/// Parses a `u8` as `str::parse::<u8>` does.
pub fn parse_u8(s: &str) -> (r: Option<u8>)
    ensures
        match parse_u8_spec(s@) {
            Some(v) => r == Some(v as u8),
            None => r is None,
        },
{
    match parse_decimal(s, 255) {
        Some(v) => Some(v as u8),
        None => None,
    }
}

/// Parses a `u32` as `str::parse::<u32>` does.
pub fn parse_u32(s: &str) -> (r: Option<u32>)
    ensures
        match parse_u32_spec(s@) {
            Some(v) => r == Some(v as u32),
            None => r is None,
        },
{
    match parse_decimal(s, 0xffff_ffff) {
        Some(v) => Some(v as u32),
        None => None,
    }
}

proof fn lemma_digits_value_prefix_bound(t: Seq<char>, k: int)
    requires
        0 <= k <= t.len(),
        all_digits(t.subrange(0, k)),
        all_digits(t),
    ensures
        digits_value(t) >= digits_value(t.subrange(0, k)),
    decreases t.len() - k,
{
    if k < t.len() {
        assert(t.drop_last().subrange(0, k) =~= t.subrange(0, k)) by {
            if k == t.len() { }
        };
        if k <= t.len() - 1 {
            lemma_digits_value_prefix_bound(t.drop_last(), k);
        }
        if k == t.len() - 1 {
            assert(t.subrange(0, k) =~= t.drop_last());
        }
    } else {
        assert(t.subrange(0, k) =~= t);
    }
}

/// Index of the first `c` in `s`, or its length when there is none.
pub open spec fn char_index(s: Seq<char>, c: char) -> int
    decreases s.len(),
{
    if s.len() == 0 {
        0
    } else if s[0] == c {
        0
    } else {
        1 + char_index(s.drop_first(), c)
    }
}

pub proof fn lemma_char_index(s: Seq<char>, c: char)
    ensures
        0 <= char_index(s, c) <= s.len(),
        char_index(s, c) < s.len() ==> s[char_index(s, c)] == c,
        forall|k: int| 0 <= k < char_index(s, c) ==> s[k] != c,
    decreases s.len(),
{
    if s.len() > 0 && s[0] != c {
        lemma_char_index(s.drop_first(), c);
        assert forall|k: int| 0 <= k < char_index(s, c) implies s[k] != c by {
            if k > 0 {
                assert(s[k] == s.drop_first()[k - 1]);
            }
        }
    }
}

/// Index of the first `.` in `s`, or its length when there is none.
pub open spec fn dot_index(s: Seq<char>) -> int {
    char_index(s, '.')
}

/// The first and second `.`-separated fields of an address, as
/// `str::split('.')` yields them (the second is absent without a `.`).
pub open spec fn first_field(s: Seq<char>) -> Seq<char> {
    s.take(dot_index(s))
}

pub open spec fn second_field(s: Seq<char>) -> Option<Seq<char>> {
    if dot_index(s) < s.len() {
        Some(first_field(s.skip(dot_index(s) + 1)))
    } else {
        None
    }
}

/// A field parsed as a `u8`, 0 when it does not parse.
pub open spec fn field_value(f: Option<Seq<char>>) -> nat {
    match f {
        Some(t) => match parse_u8_spec(t) {
            Some(v) => v,
            None => 0,
        },
        None => 0,
    }
}

/// `addr` is in the CGNAT range 100.64.0.0/10: first field 100, second 64..=127.
pub open spec fn is_cgnat_spec(addr: Seq<char>) -> bool {
    let a = field_value(Some(first_field(addr)));
    let b = field_value(second_field(addr));
    a == 100 && 64 <= b <= 127
}

/// Position of the first `c` at or after `from`, or the length of `s`.
fn find_char(s: &str, from: usize, c: char) -> (r: usize)
    requires
        from <= s@.len(),
    ensures
        r == from + char_index(s@.skip(from as int), c),
        from <= r <= s@.len(),
{
    let n = s.unicode_len();
    let mut i = from;
    proof {
        lemma_char_index(s@.skip(from as int), c);
    }
    while i < n
        invariant
            from <= i <= n,
            n == s@.len(),
            forall|k: int| from <= k < i ==> s@[k] != c,
            i - from <= char_index(s@.skip(from as int), c),
            0 <= char_index(s@.skip(from as int), c) <= n - from,
            char_index(s@.skip(from as int), c) < n - from ==> s@.skip(from as int)[char_index(s@.skip(from as int), c)] == c,
            forall|k: int| 0 <= k < char_index(s@.skip(from as int), c) ==> s@.skip(from as int)[k] != c,
        decreases n - i,
    {
        if s.get_char(i) == c {
            proof {
                assert(s@.skip(from as int)[i - from] == c);
            }
            return i;
        }
        proof {
            assert(s@.skip(from as int)[i - from] != c);
        }
        i = i + 1;
    }
    i
}

fn parse_or_zero(f: &str) -> (r: u8)
    ensures
        r == field_value(Some(f@)),
{
    match parse_u8(f) {
        Some(v) => v,
        None => 0,
    }
}

/// Returns `true` for addresses in the CGNAT range 100.64.0.0/10
/// (100.64.0.0 – 100.127.255.255), which is used by Tailscale and similar
/// mesh VPNs and should never be assigned by an openconnect VPN.
pub fn is_cgnat_address(addr: &str) -> (r: bool)
    ensures
        r == is_cgnat_spec(addr@),
{
    let n = addr.unicode_len();
    let d1 = find_char(addr, 0, '.');
    assert(addr@.skip(0) =~= addr@);
    let a = parse_or_zero(addr.substring_char(0, d1));
    assert(addr@.subrange(0, d1 as int) =~= first_field(addr@));
    let b: u8 = if d1 < n {
        let d2 = find_char(addr, d1 + 1, '.');
        let f = addr.substring_char(d1 + 1, d2);
        proof {
            let rest = addr@.skip(d1 + 1);
            assert(addr@.skip(d1 + 1) =~= addr@.skip(dot_index(addr@) + 1));
            assert(f@ =~= first_field(rest));
        }
        parse_or_zero(f)
    } else {
        0
    };
    a == 100 && 64 <= b && b <= 127
}

/// The first line of `s` as `str::lines` yields it: the text before the
/// first `\n`, without a `\r` that ends it; the whole text when it holds no
/// `\n`; none for empty text.
pub open spec fn first_line(s: Seq<char>) -> Option<Seq<char>> {
    if s.len() == 0 {
        None
    } else if char_index(s, '\n') < s.len() {
        let l = s.take(char_index(s, '\n'));
        Some(if l.len() > 0 && l.last() == '\r' { l.drop_last() } else { l })
    } else {
        Some(s)
    }
}

/// The process id on the first line of `pgrep` output, parsed as
/// `str::parse::<u32>` does.
pub fn first_pid(output: &str) -> (r: Option<u32>)
    ensures
        match first_line(output@) {
            Some(l) => match parse_u32_spec(l) {
                Some(v) => r == Some(v as u32),
                None => r is None,
            },
            None => r is None,
        },
{
    let n = output.unicode_len();
    if n == 0 {
        return None;
    }
    let i = find_char(output, 0, '\n');
    assert(output@.skip(0) =~= output@);
    let line = if i < n {
        if i > 0 && output.get_char(i - 1) == '\r' {
            let l = output.substring_char(0, i - 1);
            assert(l@ =~= output@.take(i as int).drop_last());
            l
        } else {
            let l = output.substring_char(0, i);
            assert(l@ =~= output@.take(i as int));
            l
        }
    } else {
        let l = output.substring_char(0, n);
        assert(l@ =~= output@);
        l
    };
    parse_u32(line)
}

/// Whether an interface counts as up by its `operstate` file: when the file
/// could not be read it counts as up, otherwise anything but `down`
/// (surrounding white space ignored).
pub fn operstate_up(contents: Option<&str>) -> (r: bool)
    ensures
        r == match contents {
            Some(s) => trimmed(s@) != "down"@,
            None => true,
        },
{
    match contents {
        Some(s) => {
            let t = trim_text(s);
            !str_eq(t.as_str(), "down")
        },
        None => true,
    }
}

/// The askpass helpers looked for on `PATH`, in order.
pub open spec fn askpass_programs() -> Seq<Seq<char>> {
    seq!["ssh-askpass"@, "ksshaskpass"@, "lxqt-openssh-askpass"@, "x11-ssh-askpass"@, "gnome-ssh-askpass"@]
}

fn askpass_program_list() -> (v: Vec<String>)
    ensures
        strings_view(v@) == askpass_programs(),
{
    let mut v: Vec<String> = Vec::new();
    v.push(String::from_str("ssh-askpass"));
    v.push(String::from_str("ksshaskpass"));
    v.push(String::from_str("lxqt-openssh-askpass"));
    v.push(String::from_str("x11-ssh-askpass"));
    v.push(String::from_str("gnome-ssh-askpass"));
    assert(strings_view(v@) =~= askpass_programs());
    v
}

pub open spec fn opt_strings_view(v: Seq<Option<String>>) -> Seq<Option<Seq<char>>> {
    v.map_values(|o: Option<String>| opt_string_view(o))
}

/// The first entry that is present.
pub open spec fn first_some(found: Seq<Option<Seq<char>>>) -> Option<Seq<char>>
    decreases found.len(),
{
    if found.len() == 0 {
        None
    } else if found[0] is Some {
        found[0]
    } else {
        first_some(found.drop_first())
    }
}

/// The askpass helper: `SUDO_ASKPASS` when it names a file, else the path
/// of the first helper that was found.
pub open spec fn askpass_choice(env: Option<Seq<char>>, env_is_file: bool, found: Seq<Option<Seq<char>>>)
    -> Option<Seq<char>>
{
    if env is Some && env_is_file {
        env
    } else {
        first_some(found)
    }
}

/// Picks the askpass helper from what the probes found: `env` is the value of
/// `SUDO_ASKPASS`, `found` where each helper of `askpass_programs` was found.
pub fn pick_askpass(env: Option<String>, env_is_file: bool, found: &Vec<Option<String>>) -> (r: Option<String>)
    ensures
        opt_string_view(r) == askpass_choice(opt_string_view(env), env_is_file, opt_strings_view(found@)),
{
    let ghost env_v = opt_string_view(env);
    if env_is_file {
        if let Some(e) = env {
            return Some(e);
        }
    }
    let ghost vw = opt_strings_view(found@);
    let mut i: usize = 0;
    assert(vw.skip(0) =~= vw);
    while i < found.len()
        invariant
            i <= found.len(),
            vw == opt_strings_view(found@),
            env_v == opt_string_view(env),
            !(env_v is Some && env_is_file),
            first_some(vw.skip(i as int)) == first_some(vw),
        decreases found.len() - i,
    {
        assert(vw.skip(i as int)[0] == opt_string_view(found@[i as int]));
        match &found[i] {
            Some(p) => {
                return Some(p.clone());
            },
            None => {},
        }
        assert(vw.skip(i as int).drop_first() =~= vw.skip(i + 1));
        i = i + 1;
    }
    assert(vw.skip(i as int) =~= Seq::<Option<Seq<char>>>::empty());
    None
}

/// Looks for an askpass helper: `SUDO_ASKPASS` (whose value the caller
/// passes) when it names an existing file, else the first of the known
/// helpers that `which` finds. The probes read the file system, so the
/// result is stated as a choice over what they may have found.
pub fn find_askpass(env_askpass: Option<String>) -> (r: Option<String>)
    ensures
        exists|env_is_file: bool, found: Seq<Option<Seq<char>>>|
            found.len() <= 5 && #[trigger] askpass_choice(opt_string_view(env_askpass), env_is_file, found)
                == opt_string_view(r),
        r matches Some(p) ==> opt_string_view(env_askpass) == Some(p@)
            || exists|i: int| 0 <= i < 5 && file_name_of(p@) == Some(#[trigger] askpass_programs()[i]),
{
    let env_is_file = match &env_askpass {
        Some(p) => is_file(p.as_str()),
        None => false,
    };
    let mut found: Vec<Option<String>> = Vec::new();
    if !(env_is_file && env_askpass.is_some()) {
        let programs = askpass_program_list();
        assert(strings_view(programs@).len() == programs@.len());
        let mut hit = false;
        let mut i: usize = 0;
        proof {
            lemma_askpass_programs_plain();
        }
        while i < programs.len()
            invariant
                i <= programs.len(),
                programs.len() == 5,
                found.len() == i,
                strings_view(programs@) == askpass_programs(),
                forall|k: int| 0 <= k < 5 ==> is_plain_name(#[trigger] askpass_programs()[k]),
                forall|k: int| 0 <= k < found.len() ==> (#[trigger] found@[k] matches Some(p)
                    ==> file_name_of(p@) == Some(askpass_programs()[k])),
            decreases programs.len() - i,
        {
            assert(programs@[i as int]@ == askpass_programs()[i as int]);
            if hit {
                found.push(None);
            } else {
                let w = which_path(programs[i].as_str());
                hit = w.is_some();
                found.push(w);
            }
            i = i + 1;
        }
    }
    let ghost fv = opt_strings_view(found@);
    let ghost ev = opt_string_view(env_askpass);
    assert(forall|k: int| 0 <= k < found.len() ==> (#[trigger] fv[k] matches Some(p)
        ==> file_name_of(p) == Some(askpass_programs()[k])));
    let r = pick_askpass(env_askpass, env_is_file, &found);
    assert(askpass_choice(ev, env_is_file, fv) == opt_string_view(r));
    proof {
        lemma_first_some_member(fv);
    }
    r
}

proof fn lemma_askpass_programs_plain()
    ensures
        forall|k: int| 0 <= k < 5 ==> is_plain_name(#[trigger] askpass_programs()[k]),
{
    reveal_strlit("ssh-askpass");
    reveal_strlit("ksshaskpass");
    reveal_strlit("lxqt-openssh-askpass");
    reveal_strlit("x11-ssh-askpass");
    reveal_strlit("gnome-ssh-askpass");
    reveal_strlit(".");
    reveal_strlit("..");
    assert forall|k: int| 0 <= k < 5 implies is_plain_name(#[trigger] askpass_programs()[k]) by {
        let s = askpass_programs()[k];
        assert(s.len() > 2);
        assert(!s.contains('/'));
    }
}

/// What `first_some` picks is one of the entries.
proof fn lemma_first_some_member(found: Seq<Option<Seq<char>>>)
    ensures
        first_some(found) matches Some(x) ==> exists|k: int| 0 <= k < found.len() && found[k] == Some(x),
    decreases found.len(),
{
    if found.len() > 0 && !(found[0] is Some) {
        lemma_first_some_member(found.drop_first());
        match first_some(found) {
            Some(x) => {
                let k = choose|k: int| 0 <= k < found.drop_first().len() && found.drop_first()[k] == Some(x);
                assert(found[k + 1] == Some(x));
            },
            None => {},
        }
    } else if found.len() > 0 {
        assert(found[0] == first_some(found));
    }
}

/// A program and its arguments.
pub struct ToolCommand {
    pub program: String,
    pub args: Vec<String>,
}

pub open spec fn tool_command_view(c: ToolCommand) -> (Seq<char>, Seq<Seq<char>>) {
    (c.program@, strings_view(c.args@))
}

/// The commands tried, in order, to stop a root process: `sudo -n kill -15`,
/// the same through `sudo-rs`, then `pkexec kill`.
pub open spec fn kill_commands_spec(pid: nat) -> Seq<(Seq<char>, Seq<Seq<char>>)> {
    seq![
        ("sudo"@, seq!["-n"@, "kill"@, "-15"@, decimal(pid)]),
        ("sudo-rs"@, seq!["-n"@, "kill"@, "-15"@, decimal(pid)]),
        ("pkexec"@, seq!["kill"@, decimal(pid)]),
    ]
}

fn sudo_kill(program: &str, pid_text: &String) -> (c: ToolCommand)
    ensures
        tool_command_view(c) == (program@, seq!["-n"@, "kill"@, "-15"@, pid_text@]),
{
    let mut args: Vec<String> = Vec::new();
    args.push(String::from_str("-n"));
    args.push(String::from_str("kill"));
    args.push(String::from_str("-15"));
    args.push(pid_text.clone());
    let c = ToolCommand { program: String::from_str(program), args };
    assert(strings_view(c.args@) =~= seq!["-n"@, "kill"@, "-15"@, pid_text@]);
    c
}

/// The commands that stop process `pid` with elevated rights, in the order
/// they are tried until one succeeds.
pub fn elevated_kill_commands(pid: u32) -> (v: Vec<ToolCommand>)
    ensures
        v@.map_values(|c: ToolCommand| tool_command_view(c)) == kill_commands_spec(pid as nat),
{
    let mut pid_text = String::new();
    push_decimal(&mut pid_text, pid as u64, 0);
    assert(pid_text@ =~= decimal(pid as nat));
    let mut v: Vec<ToolCommand> = Vec::new();
    v.push(sudo_kill("sudo", &pid_text));
    v.push(sudo_kill("sudo-rs", &pid_text));
    let mut args: Vec<String> = Vec::new();
    args.push(String::from_str("kill"));
    args.push(pid_text);
    let pk = ToolCommand { program: String::from_str("pkexec"), args };
    assert(strings_view(pk.args@) =~= seq!["kill"@, decimal(pid as nat)]);
    v.push(pk);
    assert(v@.map_values(|c: ToolCommand| tool_command_view(c)) =~= kill_commands_spec(pid as nat));
    v
}

/// `s` without its leading white space (`str::trim_start`).
pub open spec fn trim_start_ws(s: Seq<char>) -> Seq<char> {
    s.skip(run_len(s, true))
}

/// The second white-space separated word of `s`, empty when there is none
/// (`s.split_whitespace().nth(1).unwrap_or("")`).
pub open spec fn second_word(s: Seq<char>) -> Seq<char> {
    let r1 = s.skip(run_len(s, true));
    let r2 = r1.skip(run_len(r1, false));
    let r3 = r2.skip(run_len(r2, true));
    r3.take(run_len(r3, false))
}

/// The interface an `ifconfig` header line names, when it is a `utun`
/// device: the text before the first `:`.
pub open spec fn utun_header(line: Seq<char>) -> Option<Seq<char>> {
    let p = char_index(line, ':');
    if p < line.len() && 4 <= p && line.take(4) == "utun"@ {
        Some(line.take(p))
    } else {
        None
    }
}

/// One `ifconfig` line: a header line (not indented) names the current
/// interface; an indented `inet` line of a `utun` interface whose address is
/// outside the CGNAT range makes that interface the one found.
pub open spec fn scan_line_spec(line: Seq<char>, current: Option<Seq<char>>, found: Option<Seq<char>>)
    -> (Option<Seq<char>>, Option<Seq<char>>)
{
    if !(line.len() > 0 && (line[0] == '\t' || line[0] == ' ')) {
        (utun_header(line), found)
    } else if current is Some && trim_start_ws(line).len() >= 5 && trim_start_ws(line).take(5) == "inet "@
        && !is_cgnat_spec(second_word(line)) {
        (current, current)
    } else {
        (current, found)
    }
}

pub open spec fn strip_cr(l: Seq<char>) -> Seq<char> {
    if l.len() > 0 && l.last() == '\r' { l.drop_last() } else { l }
}

/// The lines of `s` (as `str::lines` splits them) run through
/// `scan_line_spec`, starting from `current` and `found`; the last
/// interface found.
pub open spec fn utun_scan(s: Seq<char>, current: Option<Seq<char>>, found: Option<Seq<char>>) -> Option<Seq<char>>
    decreases s.len(),
{
    if s.len() == 0 {
        found
    } else {
        let i = char_index(s, '\n');
        if i < s.len() {
            let st = scan_line_spec(strip_cr(s.take(i)), current, found);
            proof {
                lemma_char_index(s, '\n');
            }
            utun_scan(s.skip(i + 1), st.0, st.1)
        } else {
            scan_line_spec(s, current, found).1
        }
    }
}

fn utun_header_of(line: &str) -> (r: Option<String>)
    ensures
        opt_string_view(r) == utun_header(line@),
{
    let n = line.unicode_len();
    let p = find_char(line, 0, ':');
    assert(line@.skip(0) =~= line@);
    if p < n && 4 <= p {
        let iface = line.substring_char(0, p);
        let prefix = line.substring_char(0, 4);
        proof {
            reveal_strlit("utun");
        }
        if str_eq(prefix, "utun") {
            assert(iface@ =~= line@.take(p as int));
            assert(prefix@ =~= line@.take(4));
            return Some(String::from_str(iface));
        }
        assert(prefix@ =~= line@.take(4));
    }
    None
}

fn scan_line(line: &str, current: Option<String>, found: Option<String>) -> (r: (Option<String>, Option<String>))
    ensures
        (opt_string_view(r.0), opt_string_view(r.1))
            == scan_line_spec(line@, opt_string_view(current), opt_string_view(found)),
{
    let n = line.unicode_len();
    let indented = n > 0 && (line.get_char(0) == '\t' || line.get_char(0) == ' ');
    if !indented {
        return (utun_header_of(line), found);
    }
    if current.is_none() {
        return (current, found);
    }
    let a = skip_run(line, 0, true);
    assert(line@.skip(0) =~= line@);
    let rest = line.substring_char(a, n);
    assert(rest@ =~= trim_start_ws(line@));
    proof {
        reveal_strlit("inet ");
    }
    if !starts_with_str(rest, "inet ") {
        return (current, found);
    }
    let b = skip_run(line, a, false);
    let c = skip_run(line, b, true);
    let d = skip_run(line, c, false);
    let word = line.substring_char(c, d);
    proof {
        let r1 = line@.skip(run_len(line@, true));
        assert(r1 =~= line@.skip(a as int));
        let r2 = r1.skip(run_len(r1, false));
        assert(r2 =~= line@.skip(b as int));
        let r3 = r2.skip(run_len(r2, true));
        assert(r3 =~= line@.skip(c as int));
        assert(word@ =~= r3.take(run_len(r3, false)));
    }
    if is_cgnat_address(word) {
        return (current, found);
    }
    let copy = match &current {
        Some(name) => Some(name.clone()),
        None => None,
    };
    (current, copy)
}

/// The `utun` interface with an IPv4 address outside the CGNAT range in
/// `ifconfig` output (the last such one), which macOS gives an openconnect
/// tunnel.
pub fn active_utun(output: &str) -> (r: Option<String>)
    ensures
        opt_string_view(r) == utun_scan(output@, None, None),
{
    let n = output.unicode_len();
    let mut pos: usize = 0;
    let mut current: Option<String> = None;
    let mut found: Option<String> = None;
    assert(output@.skip(0) =~= output@);
    while pos < n
        invariant
            pos <= n,
            n == output@.len(),
            utun_scan(output@.skip(pos as int), opt_string_view(current), opt_string_view(found))
                == utun_scan(output@, None, None),
        decreases n - pos,
    {
        let ghost rest = output@.skip(pos as int);
        let nl = find_char(output, pos, '\n');
        proof {
            lemma_char_index(rest, '\n');
        }
        let line = if nl < n {
            if nl > pos && output.get_char(nl - 1) == '\r' {
                let l = output.substring_char(pos, nl - 1);
                assert(l@ =~= strip_cr(rest.take(nl - pos)));
                l
            } else {
                let l = output.substring_char(pos, nl);
                assert(l@ =~= strip_cr(rest.take(nl - pos)));
                l
            }
        } else {
            let l = output.substring_char(pos, n);
            assert(l@ =~= rest);
            l
        };
        let (c2, f2) = scan_line(line, current, found);
        current = c2;
        found = f2;
        if nl < n {
            assert(output@.skip(nl + 1) =~= rest.skip(nl - pos + 1));
            pos = nl + 1;
        } else {
            pos = n;
            assert(output@.skip(n as int) =~= Seq::<char>::empty());
        }
    }
    found
}

/// Whether the tunnel counts as up on macOS: a `utun` tunnel is found and
/// openconnect is running, so that another VPN client's tunnel does not
/// count.
pub fn macos_tunnel_up(openconnect_running: bool, utun_found: bool) -> (r: bool)
    ensures
        r == (openconnect_running && utun_found),
{
    openconnect_running && utun_found
}

/// How the escalation tool gets the password.
#[derive(Debug, Clone, Copy, PartialEq, Eq, Structural)]
pub enum PasswordFeed {
    /// An askpass helper asks the user (`SUDO_ASKPASS`).
    Askpass,
    /// The password is written to the tool's standard input.
    Stdin,
    /// The tool asks on its own (or needs nothing).
    Neither,
}

pub open spec fn password_feed_spec(base: Seq<char>, askpass_found: bool, has_password: bool) -> PasswordFeed {
    if askpass_found && sudo_family(base) {
        PasswordFeed::Askpass
    } else if has_password && sudo_family(base) {
        PasswordFeed::Stdin
    } else {
        PasswordFeed::Neither
    }
}

/// The arguments given to the escalation tool to run openconnect.
pub open spec fn openconnect_args_spec(
    base: Seq<char>,
    feed: PasswordFeed,
    openconnect_path: Seq<char>,
    interface_name: Seq<char>,
    script: Option<Seq<char>>,
    verbose: bool,
    cookie: Seq<char>,
    url: Seq<char>,
) -> Seq<Seq<char>> {
    let flag: Seq<Seq<char>> = match feed {
        PasswordFeed::Askpass => if sudo_family(base) { seq!["-A"@] } else { seq![] },
        PasswordFeed::Stdin => if sudo_family(base) { seq!["-S"@] } else { seq![] },
        PasswordFeed::Neither => seq![],
    };
    let script_args: Seq<Seq<char>> = match script {
        Some(p) => seq!["--script"@, p],
        None => seq![],
    };
    let verbose_args: Seq<Seq<char>> = if verbose { seq!["--verbose"@] } else { seq![] };
    flag + seq![openconnect_path, "--protocol"@, "nc"@, "--interface"@, interface_name] + script_args
        + verbose_args + seq!["-C"@, "DSID="@ + cookie, url]
}

/// The escalation command that runs openconnect.
pub struct OpenConnectCommand {
    /// The escalation tool to run.
    pub program: String,
    pub args: Vec<String>,
    pub feed: PasswordFeed,
}

pub(crate) fn push_arg(args: &mut Vec<String>, a: &str)
    ensures
        strings_view(final(args)@) == strings_view(old(args)@).push(a@),
{
    args.push(String::from_str(a));
    assert(strings_view(args@) =~= strings_view(old(args)@).push(a@));
}

/// Builds the command line that starts openconnect through `tool`: the
/// password feed, then `openconnect --protocol nc --interface <name>`, the
/// optional `--script` and `--verbose`, and `-C DSID=<cookie> <url>`.
pub fn openconnect_command(
    tool: &str,
    askpass_found: bool,
    has_password: bool,
    openconnect_path: &str,
    interface_name: &str,
    custom_script: Option<&str>,
    verbose: bool,
    cookie: &str,
    url: &str,
) -> (c: OpenConnectCommand)
    ensures
        c.program@ == tool@,
        c.feed == password_feed_spec(tool_base(tool@), askpass_found, has_password),
        strings_view(c.args@) == openconnect_args_spec(
            tool_base(tool@),
            c.feed,
            openconnect_path@,
            interface_name@,
            match custom_script { Some(p) => Some(p@), None => None },
            verbose,
            cookie@,
            url@,
        ),
{
    let sudo_like = needs_password_prompt(tool);
    let feed = if askpass_found && sudo_like {
        PasswordFeed::Askpass
    } else if has_password && sudo_like {
        PasswordFeed::Stdin
    } else {
        PasswordFeed::Neither
    };
    let mut args: Vec<String> = Vec::new();
    assert(strings_view(args@) =~= Seq::<Seq<char>>::empty());
    match feed {
        PasswordFeed::Askpass => {
            if sudo_like {
                push_arg(&mut args, "-A");
            }
        }
        PasswordFeed::Stdin => {
            if sudo_like {
                push_arg(&mut args, "-S");
            }
        }
        PasswordFeed::Neither => {}
    }
    push_arg(&mut args, openconnect_path);
    push_arg(&mut args, "--protocol");
    push_arg(&mut args, "nc");
    push_arg(&mut args, "--interface");
    push_arg(&mut args, interface_name);
    match custom_script {
        Some(p) => {
            push_arg(&mut args, "--script");
            push_arg(&mut args, p);
        }
        None => {}
    }
    if verbose {
        push_arg(&mut args, "--verbose");
    }
    push_arg(&mut args, "-C");
    let mut cookie_arg = String::from_str("DSID=");
    push_str(&mut cookie_arg, cookie);
    let ghost before = strings_view(args@);
    args.push(cookie_arg);
    assert(strings_view(args@) =~= before.push("DSID="@ + cookie@));
    push_arg(&mut args, url);
    let c = OpenConnectCommand { program: String::from_str(tool), args, feed };
    assert(strings_view(c.args@) =~= openconnect_args_spec(
        tool_base(tool@),
        c.feed,
        openconnect_path@,
        interface_name@,
        match custom_script { Some(p) => Some(p@), None => None },
        verbose,
        cookie@,
        url@,
    ));
    c
}

/// openconnect always receives the session cookie as `DSID=<cookie>` right
/// after `-C`, and the gateway URL as its last argument.
pub proof fn law_cookie_then_url_last(
    base: Seq<char>,
    feed: PasswordFeed,
    openconnect_path: Seq<char>,
    interface_name: Seq<char>,
    script: Option<Seq<char>>,
    verbose: bool,
    cookie: Seq<char>,
    url: Seq<char>,
)
    ensures
        ({
            let a = openconnect_args_spec(base, feed, openconnect_path, interface_name, script, verbose, cookie, url);
            &&& a.len() >= 3
            &&& a[a.len() - 3] == "-C"@
            &&& a[a.len() - 2] == "DSID="@ + cookie
            &&& a[a.len() - 1] == url
        }),
{
}

/// The password feed chosen for a tool decides the flag in front of
/// openconnect: a tool fed on standard input gets `-S`, one fed by an askpass
/// helper gets `-A`, and with neither the command starts with openconnect
/// itself. Only the sudo family is ever fed, an askpass helper first.
pub proof fn law_feed_flag_leads(
    base: Seq<char>,
    askpass_found: bool,
    has_password: bool,
    openconnect_path: Seq<char>,
    interface_name: Seq<char>,
    script: Option<Seq<char>>,
    verbose: bool,
    cookie: Seq<char>,
    url: Seq<char>,
)
    ensures
        ({
            let feed = password_feed_spec(base, askpass_found, has_password);
            let a = openconnect_args_spec(base, feed, openconnect_path, interface_name, script, verbose, cookie, url);
            &&& feed == PasswordFeed::Stdin ==> a[0] == "-S"@ && a[1] == openconnect_path
            &&& feed == PasswordFeed::Askpass ==> a[0] == "-A"@ && a[1] == openconnect_path
            &&& feed == PasswordFeed::Neither ==> a[0] == openconnect_path
            &&& (feed != PasswordFeed::Neither <==> (base == "sudo"@ || base == "sudo-rs"@)
                && (askpass_found || has_password))
            &&& (feed == PasswordFeed::Askpass <==> (base == "sudo"@ || base == "sudo-rs"@) && askpass_found)
        }),
{
}

/// The mode name written into the vpnc-script.
pub open spec fn tunnel_mode_name(mode: TunnelMode) -> Seq<char> {
    match mode {
        TunnelMode::Full => "full"@,
        _ => "split"@,
    }
}

/// The vpnc-script for `mode`: the template with `{TUNNEL_MODE}` replaced by
/// `full` or `split`.
pub fn vpnc_script_text(mode: &TunnelMode) -> (r: String)
    ensures
        r@ == replaced(VPNC_SCRIPT_TEMPLATE@, "{TUNNEL_MODE}"@, tunnel_mode_name(*mode)),
{
    let mode_str = match mode {
        TunnelMode::Full => "full",
        _ => "split",
    };
    proof {
        reveal_strlit("{TUNNEL_MODE}");
    }
    replace_text(VPNC_SCRIPT_TEMPLATE, "{TUNNEL_MODE}", mode_str)
}

/// Cross-platform vpnc-script template.
/// Handles routing and DNS for both macOS (scutil) and Linux (resolvectl / resolv.conf).
/// `{TUNNEL_MODE}` is substituted with `"full"` or `"split"` at runtime.
pub const VPNC_SCRIPT_TEMPLATE: &'static str = r#"#!/bin/sh
# kuvpn generated vpnc-script — do not edit manually.
# Handles routing and DNS for openconnect VPN tunnels.

TUNNEL_MODE="{TUNNEL_MODE}"
OS="$(uname -s)"

setup_interface() {
    if [ "$OS" = "Darwin" ]; then
        # Assign the VPN IP to the utun device (point-to-point, both ends = our address).
        # openconnect delegates this to the script when --script is provided.
        ifconfig "$TUNDEV" "$INTERNAL_IP4_ADDRESS" "$INTERNAL_IP4_ADDRESS" \
            mtu "${INTERNAL_IP4_MTU:-1400}" netmask 255.255.255.255 up
        # Host route makes the kernel aware that $INTERNAL_IP4_ADDRESS lives on this
        # tunnel, which is required for 'route add default $INTERNAL_IP4_ADDRESS' to work.
        route add -host "$INTERNAL_IP4_ADDRESS" -interface "$TUNDEV" 2>/dev/null || true
    else
        ip addr add "${INTERNAL_IP4_ADDRESS}/${INTERNAL_IP4_NETMASKLEN:-24}" dev "$TUNDEV" 2>/dev/null || true
        ip link set "$TUNDEV" mtu "${INTERNAL_IP4_MTU:-1400}" up
    fi
}

teardown_interface() {
    if [ "$OS" = "Darwin" ]; then
        route delete -host "$INTERNAL_IP4_ADDRESS" 2>/dev/null || true
        # openconnect closes the utun fd itself; no ifconfig down needed
    else
        ip addr del "${INTERNAL_IP4_ADDRESS}/${INTERNAL_IP4_NETMASKLEN:-24}" dev "$TUNDEV" 2>/dev/null || true
        ip link set "$TUNDEV" down 2>/dev/null || true
    fi
}

setup_routes() {
    if [ "$TUNNEL_MODE" = "full" ]; then
        if [ "$OS" = "Darwin" ]; then
            real_gw=$(route -n get default 2>/dev/null | awk '/gateway:/{print $2}')
            # Protect the VPN server itself so it stays reachable via WiFi
            [ -n "$real_gw" ] && [ -n "$VPNGATEWAY" ] && \
                route add -host "$VPNGATEWAY" "$real_gw" 2>/dev/null || true
            # Save old default gateway for teardown restoration
            GW_FILE="/tmp/kuvpn-gw-${TUNDEV}.saved"
            [ -n "$real_gw" ] && echo "$real_gw" > "$GW_FILE"
            # Replace default route with VPN tunnel (matches openconnect built-in behavior)
            route delete default 2>/dev/null || true
            route add default "$INTERNAL_IP4_ADDRESS" 2>/dev/null || true
        else
            real_gw=$(ip route show default 2>/dev/null | awk '/default/{print $3; exit}')
            [ -n "$real_gw" ] && [ -n "$VPNGATEWAY" ] && \
                ip route add "$VPNGATEWAY/32" via "$real_gw" 2>/dev/null || true
            ip route add 0.0.0.0/1   dev "$TUNDEV" 2>/dev/null || true
            ip route add 128.0.0.0/1 dev "$TUNDEV" 2>/dev/null || true
        fi
    else
        i=0
        while [ "$i" -lt "${CISCO_SPLIT_INC:-0}" ]; do
            eval "addr=\$CISCO_SPLIT_INC_${i}_ADDR"
            eval "masklen=\$CISCO_SPLIT_INC_${i}_MASKLEN"
            if [ -n "$addr" ] && [ -n "$masklen" ]; then
                if [ "$OS" = "Darwin" ]; then
                    if [ "$addr" = "0.0.0.0" ] && [ "$masklen" = "0" ]; then
                        # Server pushed 0/0 — can't 'route add' over existing default;
                        # do the same default-route replacement as full tunnel.
                        real_gw=$(route -n get default 2>/dev/null | awk '/gateway:/{print $2}')
                        [ -n "$real_gw" ] && [ -n "$VPNGATEWAY" ] && \
                            route add -host "$VPNGATEWAY" "$real_gw" 2>/dev/null || true
                        GW_FILE="/tmp/kuvpn-gw-${TUNDEV}.saved"
                        [ -n "$real_gw" ] && echo "$real_gw" > "$GW_FILE"
                        route delete default 2>/dev/null || true
                        route add default "$INTERNAL_IP4_ADDRESS" 2>/dev/null || true
                    else
                        route add -net "$addr/$masklen" "$INTERNAL_IP4_ADDRESS" 2>/dev/null || true
                    fi
                else
                    if [ "$addr" = "0.0.0.0" ] && [ "$masklen" = "0" ]; then
                        real_gw=$(ip route show default 2>/dev/null | awk '/default/{print $3; exit}')
                        [ -n "$real_gw" ] && [ -n "$VPNGATEWAY" ] && \
                            ip route add "$VPNGATEWAY/32" via "$real_gw" 2>/dev/null || true
                        ip route add 0.0.0.0/1   dev "$TUNDEV" 2>/dev/null || true
                        ip route add 128.0.0.0/1 dev "$TUNDEV" 2>/dev/null || true
                    else
                        ip route add "$addr/$masklen" dev "$TUNDEV" 2>/dev/null || true
                    fi
                fi
            fi
            i=$((i + 1))
        done
    fi
}

teardown_routes() {
    if [ "$TUNNEL_MODE" = "full" ]; then
        if [ "$OS" = "Darwin" ]; then
            # Restore original default route
            GW_FILE="/tmp/kuvpn-gw-${TUNDEV}.saved"
            route delete default 2>/dev/null || true
            if [ -f "$GW_FILE" ]; then
                OLD_GW=$(cat "$GW_FILE")
                [ -n "$OLD_GW" ] && route add default "$OLD_GW" 2>/dev/null || true
                rm -f "$GW_FILE"
            fi
            [ -n "$VPNGATEWAY" ] && route delete -host "$VPNGATEWAY" 2>/dev/null || true
        else
            ip route del 0.0.0.0/1   dev "$TUNDEV" 2>/dev/null || true
            ip route del 128.0.0.0/1 dev "$TUNDEV" 2>/dev/null || true
            [ -n "$VPNGATEWAY" ] && ip route del "$VPNGATEWAY/32" 2>/dev/null || true
        fi
    else
        # Split teardown: check if we did a default-route replacement (0/0 case)
        GW_FILE="/tmp/kuvpn-gw-${TUNDEV}.saved"
        if [ "$OS" = "Darwin" ] && [ -f "$GW_FILE" ]; then
            route delete default 2>/dev/null || true
            OLD_GW=$(cat "$GW_FILE")
            [ -n "$OLD_GW" ] && route add default "$OLD_GW" 2>/dev/null || true
            rm -f "$GW_FILE"
            [ -n "$VPNGATEWAY" ] && route delete -host "$VPNGATEWAY" 2>/dev/null || true
        else
        i=0
        while [ "$i" -lt "${CISCO_SPLIT_INC:-0}" ]; do
            eval "addr=\$CISCO_SPLIT_INC_${i}_ADDR"
            eval "masklen=\$CISCO_SPLIT_INC_${i}_MASKLEN"
            if [ -n "$addr" ] && [ -n "$masklen" ]; then
                if [ "$OS" = "Darwin" ]; then
                    route delete -net "$addr/$masklen" "$INTERNAL_IP4_ADDRESS" 2>/dev/null || true
                else
                    ip route del "$addr/$masklen" dev "$TUNDEV" 2>/dev/null || true
                fi
            fi
            i=$((i + 1))
        done
        fi
    fi
}

setup_dns() {
    [ -z "$INTERNAL_IP4_DNS" ] && return 0
    if [ "$OS" = "Darwin" ]; then
        {
            echo "open"
            echo "d.init"
            echo "d.add ServerAddresses * $INTERNAL_IP4_DNS"
            [ -n "$CISCO_DEF_DOMAIN" ] && echo "d.add SearchDomains * $CISCO_DEF_DOMAIN"
            echo "set State:/Network/Service/${TUNDEV}/DNS"
            echo "quit"
        } | scutil
    else
        if command -v resolvectl >/dev/null 2>&1; then
            # shellcheck disable=SC2086
            resolvectl dns    "$TUNDEV" $INTERNAL_IP4_DNS 2>/dev/null || true
            [ -n "$CISCO_DEF_DOMAIN" ] && \
                resolvectl domain "$TUNDEV" "$CISCO_DEF_DOMAIN" 2>/dev/null || true
        elif [ -w /etc/resolv.conf ]; then
            cp /etc/resolv.conf /etc/resolv.conf.kuvpn.bak 2>/dev/null || true
            {
                for dns in $INTERNAL_IP4_DNS; do echo "nameserver $dns"; done
                [ -n "$CISCO_DEF_DOMAIN" ] && echo "search $CISCO_DEF_DOMAIN"
                cat /etc/resolv.conf.kuvpn.bak
            } > /tmp/kuvpn-resolv.conf && mv /tmp/kuvpn-resolv.conf /etc/resolv.conf
        fi
    fi
}

teardown_dns() {
    if [ "$OS" = "Darwin" ]; then
        {
            echo "open"
            echo "remove State:/Network/Service/${TUNDEV}/DNS"
            echo "quit"
        } | scutil
    else
        if command -v resolvectl >/dev/null 2>&1; then
            resolvectl revert "$TUNDEV" 2>/dev/null || true
        elif [ -f /etc/resolv.conf.kuvpn.bak ]; then
            mv /etc/resolv.conf.kuvpn.bak /etc/resolv.conf 2>/dev/null || true
        fi
    fi
}

case "$reason" in
    pre-init)
        ;;
    connect|reconnect)
        setup_interface
        setup_routes
        setup_dns
        ;;
    disconnect)
        teardown_dns
        teardown_routes
        teardown_interface
        ;;
    attempt-reconnect)
        ;;
esac
"#;

} // verus!
