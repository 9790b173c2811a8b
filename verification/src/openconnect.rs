//! Finding openconnect and the privilege-escalation tool that starts it.

use vstd::prelude::*;
use vstd::string::*;
use crate::openconnect::unix::{char_index, lemma_char_index, push_arg, OpenConnectCommand, PasswordFeed};
use crate::text::{push_str, str_eq};

pub mod unix;

verus! {

/// Whether an executable named `name` is found on `PATH` (or at `name` when it
/// is a path). Calls `which::which`; its answer depends on the file system and
/// the environment, so nothing is stated of it.
#[verifier::external_body]
pub(crate) fn found_by_which(name: &str) -> bool {
    which::which(name).is_ok()
}

/// A path that starts at the root.
pub open spec fn is_absolute_path(s: Seq<char>) -> bool {
    s.len() > 0 && s[0] == '/'
}

/// Where `which::which` finds the executable `name`, as text; `None` when it
/// finds nothing or the path is not valid UTF-8. What is found depends on the
/// file system and the environment; the contract states what the `which`
/// source fixes of every outcome on Unix: a bare name is looked up as that
/// name inside a `PATH` directory, and an absolute path is returned as given.
#[verifier::external_body]
pub(crate) fn which_path(name: &str) -> (r: Option<String>)
    ensures
        is_plain_name(name@) ==> (r matches Some(p) ==> file_name_of(p@) == Some(name@)),
        is_absolute_path(name@) ==> (r matches Some(p) ==> p@ == name@),
{
    match which::which(name) {
        Ok(p) => p.to_str().map(|s| s.to_string()),
        Err(_) => None,
    }
}

/// Whether `path` names an existing regular file. Calls `Path::is_file`; the
/// answer depends on the file system, so nothing is stated of it.
#[verifier::external_body]
pub(crate) fn is_file(path: &str) -> bool {
    std::path::Path::new(path).is_file()
}

/// The parts of a Unix path between its `/` separators, without empty parts
/// and `.` parts (as `Path::components` skips them).
pub open spec fn path_parts(s: Seq<char>) -> Seq<Seq<char>>
    decreases s.len(),
{
    if s.len() == 0 {
        seq![]
    } else {
        let i = char_index(s, '/');
        if i < s.len() {
            proof {
                lemma_char_index(s, '/');
            }
            let head = s.take(i);
            let rest = path_parts(s.skip(i + 1));
            if head.len() == 0 || head == seq!['.'] { rest } else { seq![head] + rest }
        } else if s == seq!['.'] {
            seq![]
        } else {
            seq![s]
        }
    }
}

/// The final component of `path`, as `Path::file_name` computes it on Unix:
/// the last part of the path, `None` when there is none or it is `..`.
pub open spec fn file_name_of(path: Seq<char>) -> Option<Seq<char>> {
    let parts = path_parts(path);
    if parts.len() == 0 || parts.last() == seq!['.', '.'] {
        None
    } else {
        Some(parts.last())
    }
}

/// A bare name is its own final component.
pub proof fn lemma_plain_name_is_file_name(s: Seq<char>)
    requires
        is_plain_name(s),
    ensures
        file_name_of(s) == Some(s),
{
    lemma_char_index(s, '/');
    if char_index(s, '/') < s.len() {
        assert(s.contains('/'));
    }
    reveal_strlit(".");
    reveal_strlit("..");
    assert(seq!['.'] =~= "."@);
    assert(seq!['.', '.'] =~= ".."@);
}

/// No part of a path holds `/`.
proof fn lemma_path_parts_no_slash(s: Seq<char>)
    ensures
        forall|k: int| 0 <= k < path_parts(s).len() ==> !(#[trigger] path_parts(s)[k]).contains('/'),
    decreases s.len(),
{
    if s.len() > 0 {
        lemma_char_index(s, '/');
        let i = char_index(s, '/');
        if i < s.len() {
            lemma_path_parts_no_slash(s.skip(i + 1));
            let head = s.take(i);
            assert(!head.contains('/')) by {
                if head.contains('/') {
                    let j = choose|j: int| 0 <= j < head.len() && head[j] == '/';
                    assert(s[j] == '/');
                }
            }
            let rest = path_parts(s.skip(i + 1));
            if !(head.len() == 0 || head == seq!['.']) {
                assert forall|k: int| 0 <= k < path_parts(s).len() implies !(#[trigger] path_parts(s)[k]).contains('/') by {
                    if k > 0 {
                        assert(path_parts(s)[k] == rest[k - 1]);
                    }
                }
            }
        } else if s != seq!['.'] {
            assert(!s.contains('/')) by {
                if s.contains('/') {
                    let j = choose|j: int| 0 <= j < s.len() && s[j] == '/';
                }
            }
        }
    }
}

/// A final component never holds `/`.
pub proof fn lemma_file_name_no_slash(s: Seq<char>)
    ensures
        file_name_of(s) matches Some(n) ==> !n.contains('/'),
{
    lemma_path_parts_no_slash(s);
}

pub open spec fn opt_string_view(o: Option<String>) -> Option<Seq<char>> {
    match o {
        Some(s) => Some(s@),
        None => None,
    }
}

/// A bare name: non-empty, without `/`, and neither `.` nor `..`.
pub open spec fn is_plain_name(s: Seq<char>) -> bool {
    &&& s.len() > 0
    &&& !s.contains('/')
    &&& s != "."@
    &&& s != ".."@
}

/// The final component of `path` as text. Calls `Path::file_name` (then
/// `OsStr::to_str`, which cannot fail on text that came from a `&str`); the
/// contract states its result on Unix by `file_name_of`.
#[verifier::external_body]
pub(crate) fn path_file_name(path: &str) -> (r: Option<String>)
    ensures
        opt_string_view(r) == file_name_of(path@),
{
    std::path::Path::new(path).file_name().and_then(|n| n.to_str()).map(|s| s.to_string())
}

/// The base name of a tool path (e.g. "/usr/bin/sudo" gives "sudo"); the
/// path itself when it has no final component.
pub open spec fn tool_base(tool: Seq<char>) -> Seq<char> {
    match file_name_of(tool) {
        Some(n) => n,
        None => tool,
    }
}

pub fn tool_base_name(tool: &str) -> (r: String)
    ensures
        r@ == tool_base(tool@),
        is_plain_name(tool@) ==> r@ == tool@,
{
    proof {
        if is_plain_name(tool@) {
            lemma_plain_name_is_file_name(tool@);
        }
    }
    match path_file_name(tool) {
        Some(n) => n,
        None => String::from_str(tool),
    }
}

/// The candidates tried in order: a custom tool that was found goes first.
pub open spec fn escalation_candidates(
    defaults: Seq<Seq<char>>,
    custom: Option<Seq<char>>,
    custom_found: bool,
) -> Seq<Seq<char>> {
    match custom {
        Some(c) => if custom_found { seq![c] + defaults } else { defaults },
        None => defaults,
    }
}

/// The first candidate that was found.
pub open spec fn first_found(candidates: Seq<Seq<char>>, found: Seq<bool>) -> Option<Seq<char>>
    decreases candidates.len(),
{
    if candidates.len() == 0 || found.len() == 0 {
        None
    } else if found[0] {
        Some(candidates[0])
    } else {
        first_found(candidates.drop_first(), found.drop_first())
    }
}

/// What `first_found` picks is one of the candidates.
pub proof fn lemma_first_found_member(candidates: Seq<Seq<char>>, found: Seq<bool>)
    ensures
        first_found(candidates, found) matches Some(x) ==> candidates.contains(x),
    decreases candidates.len(),
{
    if candidates.len() > 0 && found.len() > 0 && !found[0] {
        lemma_first_found_member(candidates.drop_first(), found.drop_first());
        match first_found(candidates, found) {
            Some(x) => {
                let k = choose|k: int| 0 <= k < candidates.drop_first().len() && candidates.drop_first()[k] == x;
                assert(candidates[k + 1] == x);
            },
            None => {},
        }
    } else if candidates.len() > 0 && found.len() > 0 {
        assert(candidates[0] == candidates[0]);
    }
}

pub open spec fn strings_view(v: Seq<String>) -> Seq<Seq<char>> {
    v.map_values(|s: String| s@)
}

/// Picks the first candidate whose entry in `found` is true.
pub fn pick_first_found(candidates: &Vec<String>, found: &Vec<bool>) -> (r: Option<String>)
    requires
        candidates.len() == found.len(),
    ensures
        opt_string_view(r) == first_found(strings_view(candidates@), found@),
{
    let n = candidates.len();
    let mut i: usize = 0;
    assert(strings_view(candidates@).skip(0) =~= strings_view(candidates@));
    assert(found@.skip(0) =~= found@);
    while i < n
        invariant
            i <= n,
            n == candidates.len(),
            n == found.len(),
            first_found(strings_view(candidates@), found@)
                == first_found(strings_view(candidates@).skip(i as int), found@.skip(i as int)),
        decreases n - i,
    {
        let ghost cs = strings_view(candidates@).skip(i as int);
        let ghost fs = found@.skip(i as int);
        assert(cs[0] == candidates@[i as int]@);
        if found[i] {
            return Some(candidates[i].clone());
        }
        assert(cs.drop_first() =~= strings_view(candidates@).skip(i + 1));
        assert(fs.drop_first() =~= found@.skip(i + 1));
        i = i + 1;
    }
    None
}

/// Builds the ordered candidate list from the defaults and a custom tool.
pub fn escalation_candidate_list(defaults: &Vec<String>, custom: &Option<String>, custom_found: bool)
    -> (r: Vec<String>)
    ensures
        strings_view(r@) == escalation_candidates(
            strings_view(defaults@),
            opt_string_view(*custom),
            custom_found,
        ),
{
    let mut r: Vec<String> = Vec::new();
    match custom {
        Some(c) => {
            if custom_found {
                r.push(c.clone());
            }
        }
        None => {}
    }
    let ghost start = r@;
    let mut i: usize = 0;
    while i < defaults.len()
        invariant
            i <= defaults.len(),
            r@ == start + defaults@.subrange(0, i as int),
        decreases defaults.len() - i,
    {
        r.push(defaults[i].clone());
        i = i + 1;
        assert(r@ =~= start + defaults@.subrange(0, i as int));
    }
    assert(defaults@.subrange(0, defaults.len() as int) =~= defaults@);
    assert(strings_view(r@) =~= escalation_candidates(
        strings_view(defaults@),
        opt_string_view(*custom),
        custom_found,
    ));
    r
}

/// `r` is what resolving among `defaults` (a found custom tool first) gives
/// when `found` says which candidates are installed.
pub open spec fn resolves_to(
    defaults: Seq<Seq<char>>,
    custom: Option<Seq<char>>,
    custom_found: bool,
    found: Seq<bool>,
    r: Option<Seq<char>>,
) -> bool {
    let cands = escalation_candidates(defaults, custom, custom_found);
    &&& found.len() == cands.len()
    &&& first_found(cands, found) == r
}

/// `probe` may answer `b` when asked whether the executable `name` is installed.
pub open spec fn may_answer<F: Fn(&str) -> bool>(probe: F, name: Seq<char>, b: bool) -> bool {
    exists|s: &str| s@ == name && #[trigger] probe.ensures((s,), b)
}

/// Each entry of `found` is an answer `probe` may give for the name at the
/// same place.
pub open spec fn answers_all<F: Fn(&str) -> bool>(probe: F, names: Seq<Seq<char>>, found: Seq<bool>) -> bool {
    &&& found.len() == names.len()
    &&& forall|i: int| 0 <= i < names.len() ==> #[trigger] may_answer(probe, names[i], found[i])
}

/// Resolves the escalation tool among `defaults`, asking `probe` whether each
/// is installed: a custom tool that `probe` reports installed is put first,
/// and the result is the first candidate that `probe` reports installed.
pub fn resolve_among_by<F: Fn(&str) -> bool>(defaults: &Vec<String>, run_command: &Option<String>, probe: F)
    -> (r: Option<String>)
    requires
        forall|s: &str| #[trigger] probe.requires((s,)),
    ensures
        exists|custom_found: bool, found: Seq<bool>| {
            &&& #[trigger] resolves_to(
                strings_view(defaults@), opt_string_view(*run_command), custom_found, found, opt_string_view(r))
            &&& (run_command matches Some(c) ==> may_answer(probe, c@, custom_found))
            &&& answers_all(
                probe,
                escalation_candidates(strings_view(defaults@), opt_string_view(*run_command), custom_found),
                found,
            )
        },
        run_command matches Some(c) ==> (!may_answer(probe, c@, false) ==> opt_string_view(r) == Some(c@)),
{
    let custom_found = match run_command {
        Some(c) => {
            let s = c.as_str();
            let b = probe(s);
            assert(may_answer(probe, c@, b));
            b
        }
        None => false,
    };
    let candidates = escalation_candidate_list(defaults, run_command, custom_found);
    let mut found: Vec<bool> = Vec::new();
    let mut i: usize = 0;
    while i < candidates.len()
        invariant
            i <= candidates.len(),
            found.len() == i,
            forall|s: &str| #[trigger] probe.requires((s,)),
            forall|j: int| 0 <= j < i ==> #[trigger] may_answer(probe, candidates@[j]@, found@[j]),
        decreases candidates.len() - i,
    {
        let s = candidates[i].as_str();
        let b = probe(s);
        assert(may_answer(probe, candidates@[i as int]@, b));
        found.push(b);
        i = i + 1;
    }
    let r = pick_first_found(&candidates, &found);
    let ghost cands = strings_view(candidates@);
    assert(cands.len() == candidates@.len());
    assert forall|j: int| 0 <= j < cands.len() implies #[trigger] may_answer(probe, cands[j], found@[j]) by {
        assert(cands[j] == candidates@[j]@);
    }
    assert(resolves_to(strings_view(defaults@), opt_string_view(*run_command), custom_found, found@, opt_string_view(r)));
    proof {
        if run_command is Some && !may_answer(probe, run_command->Some_0@, false) {
            assert(custom_found);
            assert(cands[0] == run_command->Some_0@);
            assert(may_answer(probe, cands[0], found@[0]));
            assert(found@[0]);
        }
    }
    r
}

/// `which::which` may answer `b` when asked whether the executable `name` is
/// installed (an answer that a call of `found_by_which` can give).
pub closed spec fn which_may_answer(name: Seq<char>, b: bool) -> bool {
    may_answer(found_by_which, name, b)
}

/// Each entry of `found` is an answer `which` may give for the name at the
/// same place.
pub open spec fn which_answers_all(names: Seq<Seq<char>>, found: Seq<bool>) -> bool {
    &&& found.len() == names.len()
    &&& forall|i: int| 0 <= i < names.len() ==> #[trigger] which_may_answer(names[i], found[i])
}

/// Resolving among `defaults` and `custom` with `which` may give `r`: the
/// custom tool is put first when `which` answered that it is installed, and
/// `r` is the first candidate for which `which` answered so.
pub open spec fn which_resolves_to(defaults: Seq<Seq<char>>, custom: Option<Seq<char>>, r: Option<Seq<char>>) -> bool {
    exists|custom_found: bool, found: Seq<bool>| {
        &&& #[trigger] resolves_to(defaults, custom, custom_found, found, r)
        &&& (custom matches Some(c) ==> which_may_answer(c, custom_found))
        &&& which_answers_all(escalation_candidates(defaults, custom, custom_found), found)
    }
}

/// Resolves the escalation tool among `defaults`, a custom tool first when it
/// is installed: the result is the first candidate `which` finds. A custom
/// tool for which `which` can only answer that it is installed is the result.
pub fn resolve_among(defaults: &Vec<String>, run_command: &Option<String>) -> (r: Option<String>)
    ensures
        exists|custom_found: bool, found: Seq<bool>| #[trigger] resolves_to(
            strings_view(defaults@), opt_string_view(*run_command), custom_found, found, opt_string_view(r)),
        which_resolves_to(strings_view(defaults@), opt_string_view(*run_command), opt_string_view(r)),
        run_command matches Some(c) ==> (!which_may_answer(c@, false) ==> opt_string_view(r) == Some(c@)),
{
    let r = resolve_among_by(defaults, run_command, found_by_which);
    proof {
        let custom = opt_string_view(*run_command);
        let (custom_found, found) = choose|custom_found: bool, found: Seq<bool>| {
            &&& #[trigger] resolves_to(strings_view(defaults@), custom, custom_found, found, opt_string_view(r))
            &&& (run_command matches Some(c) ==> may_answer(found_by_which, c@, custom_found))
            &&& answers_all(
                found_by_which,
                escalation_candidates(strings_view(defaults@), custom, custom_found),
                found,
            )
        };
        let cands = escalation_candidates(strings_view(defaults@), custom, custom_found);
        assert forall|i: int| 0 <= i < cands.len() implies #[trigger] which_may_answer(cands[i], found[i]) by {
            assert(may_answer(found_by_which, cands[i], found[i]));
        }
        assert(resolves_to(strings_view(defaults@), custom, custom_found, found, opt_string_view(r)));
    }
    r
}

pub open spec fn classic_tools() -> Seq<Seq<char>> {
    seq!["doas"@, "sudo"@, "pkexec"@]
}

/// Determines which escalation tool will be used: a custom command that is
/// installed, else the first installed of `doas`, `sudo`, `pkexec`.
pub fn resolve_escalation_tool(run_command: &Option<String>) -> (r: Option<String>)
    ensures
        exists|custom_found: bool, found: Seq<bool>| #[trigger] resolves_to(
            classic_tools(), opt_string_view(*run_command), custom_found, found, opt_string_view(r)),
        which_resolves_to(classic_tools(), opt_string_view(*run_command), opt_string_view(r)),
        run_command matches Some(c) ==> (!which_may_answer(c@, false) ==> opt_string_view(r) == Some(c@)),
{
    let mut defaults: Vec<String> = Vec::new();
    defaults.push(String::from_str("doas"));
    defaults.push(String::from_str("sudo"));
    defaults.push(String::from_str("pkexec"));
    assert(strings_view(defaults@) =~= classic_tools());
    resolve_among(&defaults, run_command)
}

/// Returns true if the given escalation tool needs a password piped via stdin
/// (i.e., it's sudo or doas, not pkexec which has its own GUI prompt).
pub fn needs_password_prompt(tool: &str) -> (r: bool)
    ensures
        r == (tool_base(tool@) == "sudo"@ || tool_base(tool@) == "doas"@),
        is_plain_name(tool@) ==> r == (tool@ == "sudo"@ || tool@ == "doas"@),
{
    let base = tool_base_name(tool);
    str_eq(base.as_str(), "sudo") || str_eq(base.as_str(), "doas")
}

pub open spec fn sbin_fallbacks() -> Seq<Seq<char>> {
    seq!["/sbin/openconnect"@, "/usr/sbin/openconnect"@, "/usr/local/sbin/openconnect"@]
}

/// Where openconnect is taken from: the given path when it is a file, else
/// the executable `which` finds under that name, else the first of the sbin
/// fallbacks that is a file.
pub open spec fn openconnect_choice(
    user_path: Seq<char>,
    user_path_is_file: bool,
    on_path: Option<Seq<char>>,
    fallback_is_file: Seq<bool>,
) -> Option<Seq<char>> {
    if user_path_is_file {
        Some(user_path)
    } else if on_path is Some {
        on_path
    } else {
        first_found(sbin_fallbacks(), fallback_is_file)
    }
}

/// Picks the openconnect executable from what the probes found.
pub fn pick_openconnect_path(
    user_path: &str,
    user_path_is_file: bool,
    on_path: Option<String>,
    fallback_is_file: &Vec<bool>,
) -> (r: Option<String>)
    requires
        fallback_is_file.len() == 3,
    ensures
        opt_string_view(r) == openconnect_choice(
            user_path@,
            user_path_is_file,
            opt_string_view(on_path),
            fallback_is_file@,
        ),
{
    if user_path_is_file {
        return Some(String::from_str(user_path));
    }
    match on_path {
        Some(p) => Some(p),
        None => {
            let mut fallbacks: Vec<String> = Vec::new();
            fallbacks.push(String::from_str("/sbin/openconnect"));
            fallbacks.push(String::from_str("/usr/sbin/openconnect"));
            fallbacks.push(String::from_str("/usr/local/sbin/openconnect"));
            assert(strings_view(fallbacks@) =~= sbin_fallbacks());
            pick_first_found(&fallbacks, fallback_is_file)
        }
    }
}

/// Attempts to locate the `openconnect` executable: the given path, then
/// `PATH`, then the common sbin directories.
pub fn locate_openconnect(user_path: &str) -> (r: Option<String>)
    ensures
        exists|user_is_file: bool, on_path: Option<Seq<char>>, fallback_is_file: Seq<bool>|
            fallback_is_file.len() == 3 && #[trigger] openconnect_choice(user_path@, user_is_file, on_path, fallback_is_file)
                == opt_string_view(r),
        r matches Some(p) ==> p@ == user_path@ || sbin_fallbacks().contains(p@)
            || (is_plain_name(user_path@) && file_name_of(p@) == Some(user_path@))
            || !(is_plain_name(user_path@) || is_absolute_path(user_path@)),
{
    let user_is_file = is_file(user_path);
    let on_path = if user_is_file { None } else { which_path(user_path) };
    let mut fallback_is_file: Vec<bool> = Vec::new();
    if !user_is_file && on_path.is_none() {
        fallback_is_file.push(is_file("/sbin/openconnect"));
        fallback_is_file.push(is_file("/usr/sbin/openconnect"));
        fallback_is_file.push(is_file("/usr/local/sbin/openconnect"));
    } else {
        fallback_is_file.push(false);
        fallback_is_file.push(false);
        fallback_is_file.push(false);
    }
    let ghost on_path_view = opt_string_view(on_path);
    let ghost fb = fallback_is_file@;
    let r = pick_openconnect_path(user_path, user_is_file, on_path, &fallback_is_file);
    assert(fb.len() == 3);
    proof {
        lemma_first_found_member(sbin_fallbacks(), fb);
    }
    assert(openconnect_choice(user_path@, user_is_file, on_path_view, fb) == opt_string_view(r));
    r
}

/// The password feed of the classic command: an askpass helper for `sudo`
/// or `doas` when one was found, else standard input when a password is at
/// hand.
pub open spec fn classic_feed(base: Seq<char>, askpass_found: bool, has_password: bool) -> PasswordFeed {
    let prompts = base == "sudo"@ || base == "doas"@;
    if askpass_found && prompts {
        PasswordFeed::Askpass
    } else if has_password && prompts {
        PasswordFeed::Stdin
    } else {
        PasswordFeed::Neither
    }
}

/// The arguments of the classic command: `-A` or `-S` for `sudo` only, then
/// `openconnect --protocol nc --interface <name> -C DSID=<cookie> <url>`.
pub open spec fn classic_args(
    base: Seq<char>,
    feed: PasswordFeed,
    openconnect_path: Seq<char>,
    interface_name: Seq<char>,
    cookie: Seq<char>,
    url: Seq<char>,
) -> Seq<Seq<char>> {
    let flag: Seq<Seq<char>> = if base == "sudo"@ {
        match feed {
            PasswordFeed::Askpass => seq!["-A"@],
            PasswordFeed::Stdin => seq!["-S"@],
            PasswordFeed::Neither => seq![],
        }
    } else {
        seq![]
    };
    flag + seq![openconnect_path, "--protocol"@, "nc"@, "--interface"@, interface_name, "-C"@, "DSID="@ + cookie, url]
}

/// The command line of `execute_openconnect`, which runs openconnect through
/// the first of `doas`, `sudo`, `pkexec` (or a custom tool) that is found.
pub fn openconnect_command_classic(
    tool: &str,
    askpass_found: bool,
    has_password: bool,
    openconnect_path: &str,
    interface_name: &str,
    cookie: &str,
    url: &str,
) -> (c: OpenConnectCommand)
    ensures
        c.program@ == tool@,
        c.feed == classic_feed(tool_base(tool@), askpass_found, has_password),
        strings_view(c.args@) == classic_args(tool_base(tool@), c.feed, openconnect_path@, interface_name@, cookie@, url@),
{
    let base = tool_base_name(tool);
    let is_sudo = str_eq(base.as_str(), "sudo");
    let prompts = is_sudo || str_eq(base.as_str(), "doas");
    let feed = if askpass_found && prompts {
        PasswordFeed::Askpass
    } else if has_password && prompts {
        PasswordFeed::Stdin
    } else {
        PasswordFeed::Neither
    };
    let mut args: Vec<String> = Vec::new();
    assert(strings_view(args@) =~= Seq::<Seq<char>>::empty());
    if is_sudo {
        match feed {
            PasswordFeed::Askpass => push_arg(&mut args, "-A"),
            PasswordFeed::Stdin => push_arg(&mut args, "-S"),
            PasswordFeed::Neither => {},
        }
    }
    push_arg(&mut args, openconnect_path);
    push_arg(&mut args, "--protocol");
    push_arg(&mut args, "nc");
    push_arg(&mut args, "--interface");
    push_arg(&mut args, interface_name);
    push_arg(&mut args, "-C");
    let mut cookie_arg = String::from_str("DSID=");
    push_str(&mut cookie_arg, cookie);
    let ghost before = strings_view(args@);
    args.push(cookie_arg);
    assert(strings_view(args@) =~= before.push("DSID="@ + cookie@));
    push_arg(&mut args, url);
    let c = OpenConnectCommand { program: String::from_str(tool), args, feed };
    assert(strings_view(c.args@) =~= classic_args(tool_base(tool@), c.feed, openconnect_path@, interface_name@, cookie@, url@));
    c
}

} // verus!
