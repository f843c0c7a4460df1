//! Whether errors capture a backtrace, decided once from `RUST_BACKTRACE`
//! (or a forced preference) and then cached.

use std::backtrace::Backtrace;
use std::sync::Arc;

use vstd::prelude::*;
use vstd::string::StrSliceExecFns;

use crate::text::{push_char, str_eq};

verus! {

/// `std::backtrace::Backtrace`, carried without looking inside.
#[verifier::external_type_specification]
#[verifier::external_body]
pub struct ExBacktrace(Backtrace);

/// The backtrace type errors carry.
pub type CapturedBacktrace = Backtrace;

/// Cache value while no preference has been decided.
pub const BACKTRACE_STATE_UNSET: u8 = 0;

/// Cache value once capturing was decided on.
pub const BACKTRACE_STATE_ENABLED: u8 = 1;

/// Cache value once capturing was decided against.
pub const BACKTRACE_STATE_DISABLED: u8 = 2;

/// Whether a character is white space (Unicode `White_Space`).
pub open spec fn is_white_space(c: char) -> bool {
    let n = c as u32;
    ||| 0x09 <= n <= 0x0d
    ||| n == 0x20
    ||| n == 0x85
    ||| n == 0xa0
    ||| n == 0x1680
    ||| 0x2000 <= n <= 0x200a
    ||| n == 0x2028
    ||| n == 0x2029
    ||| n == 0x202f
    ||| n == 0x205f
    ||| n == 0x3000
}

/// Number of leading white-space characters.
pub open spec fn leading_white_space(s: Seq<char>) -> nat
    decreases s.len(),
{
    if s.len() > 0 && is_white_space(s[0]) {
        1 + leading_white_space(s.drop_first())
    } else {
        0
    }
}

/// Number of trailing white-space characters.
pub open spec fn trailing_white_space(s: Seq<char>) -> nat
    decreases s.len(),
{
    if s.len() > 0 && is_white_space(s.last()) {
        1 + trailing_white_space(s.drop_last())
    } else {
        0
    }
}

/// The text without leading and trailing white space.
pub open spec fn trim(s: Seq<char>) -> Seq<char> {
    if leading_white_space(s) == s.len() {
        Seq::empty()
    } else {
        s.subrange(leading_white_space(s) as int, s.len() - trailing_white_space(s))
    }
}

/// ASCII lowercase of one character.
pub open spec fn ascii_lower(c: char) -> char {
    if 'A' <= c <= 'Z' { ((c as u32) + 32) as char } else { c }
}

/// Whether a `RUST_BACKTRACE` value enables capturing: set, not blank, and
/// (trimmed, ASCII-lowercased) none of `0`, `off`, `false`.
pub open spec fn backtrace_enabled_by(value: Option<Seq<char>>) -> bool {
    match value {
        None => false,
        Some(v) => {
            let t = trim(v).map_values(|c: char| ascii_lower(c));
            t.len() > 0 && t != "0"@ && t != "off"@ && t != "false"@
        },
    }
}

/// Forced preference and cached decision consulted before capturing.
#[derive(Debug, Clone, Copy, PartialEq, Eq, Structural)]
pub struct BacktraceState {
    /// Cached decision: unset, enabled or disabled.
    pub cached: u8,
    /// Preference forced regardless of `RUST_BACKTRACE`.
    pub forced: Option<bool>,
}

/// The preference before caching: the forced one, else the environment's.
pub open spec fn detected_preference(s: BacktraceState, rust_backtrace: Option<Seq<char>>) -> bool {
    match s.forced {
        Some(b) => b,
        None => backtrace_enabled_by(rust_backtrace),
    }
}

/// One decision: whether to capture, and the state it leaves. A cached
/// decision wins; otherwise the preference is detected and cached.
pub open spec fn capture_step(s: BacktraceState, rust_backtrace: Option<Seq<char>>) -> (bool, BacktraceState) {
    if s.cached == BACKTRACE_STATE_ENABLED {
        (true, s)
    } else if s.cached == BACKTRACE_STATE_DISABLED {
        (false, s)
    } else {
        let e = detected_preference(s, rust_backtrace);
        (e, BacktraceState {
            cached: if e { BACKTRACE_STATE_ENABLED } else { BACKTRACE_STATE_DISABLED },
            ..s
        })
    }
}

/// The view of an optional string slice.
pub open spec fn opt_view(v: Option<&str>) -> Option<Seq<char>> {
    match v {
        Some(s) => Some(s@),
        None => None,
    }
}

impl BacktraceState {
    /// Nothing decided, nothing forced.
    pub fn new() -> (r: BacktraceState)
        ensures
            r == (BacktraceState { cached: BACKTRACE_STATE_UNSET, forced: None }),
    {
        BacktraceState { cached: BACKTRACE_STATE_UNSET, forced: None }
    }
}

/// Leading and trailing white space counts of a character sequence, found
/// from both ends.
fn trim_bounds(cs: &Vec<char>) -> (r: (usize, usize))
    ensures
        r.0 == leading_white_space(cs@),
        r.0 <= r.1 <= cs@.len(),
        r.0 < cs@.len() ==> r.1 == cs@.len() - trailing_white_space(cs@),
{
    let n = cs.len();
    let mut a: usize = 0;
    assert(cs@.skip(0) =~= cs@);
    while a < n && is_white_space_char(cs[a])
        invariant
            a <= n,
            n == cs@.len(),
            leading_white_space(cs@) == a + leading_white_space(cs@.skip(a as int)),
        decreases n - a,
    {
        proof {
            assert(cs@.skip(a as int).drop_first() =~= cs@.skip(a + 1));
        }
        a += 1;
    }
    proof {
        if a < n {
            assert(cs@.skip(a as int)[0] == cs@[a as int]);
        }
        assert(a == n ==> cs@.skip(a as int).len() == 0);
    }
    if a == n {
        return (a, a);
    }
    let mut b: usize = n;
    assert(cs@.take(n as int) =~= cs@);
    while b > a && is_white_space_char(cs[b - 1])
        invariant
            a < n,
            a < b <= n,
            n == cs@.len(),
            !is_white_space(cs@[a as int]),
            trailing_white_space(cs@) == (n - b) + trailing_white_space(cs@.take(b as int)),
        decreases b,
    {
        proof {
            assert(cs@.take(b as int).drop_last() =~= cs@.take(b - 1));
        }
        b -= 1;
    }
    proof {
        if b > a {
            assert(cs@.take(b as int).last() == cs@[b - 1]);
        }
    }
    (a, b)
}

/// Whether a character is white space (`char::is_whitespace`).
pub fn is_white_space_char(c: char) -> (r: bool)
    ensures
        r == is_white_space(c),
{
    let n = c as u32;
    (0x09 <= n && n <= 0x0d) || n == 0x20 || n == 0x85 || n == 0xa0 || n == 0x1680
        || (0x2000 <= n && n <= 0x200a) || n == 0x2028 || n == 0x2029 || n == 0x202f
        || n == 0x205f || n == 0x3000
}

/// Whether a `RUST_BACKTRACE` value enables capturing.
pub fn backtrace_enabled_by_value(value: Option<&str>) -> (r: bool)
    ensures
        r == backtrace_enabled_by(opt_view(value)),
{
    let v = match value {
        None => {
            return false;
        },
        Some(v) => v,
    };
    let mut cs: Vec<char> = Vec::new();
    for c in it: v.chars()
        invariant
            it.seq() == v@,
            cs@ == v@.take(it.index()),
    {
        proof { assert(v@.take(it.index() + 1) =~= v@.take(it.index()).push(c)); }
        cs.push(c);
    }
    assert(v@.take(v@.len() as int) =~= v@);
    let (a, b) = trim_bounds(&cs);
    let ghost t = trim(v@);
    assert(t =~= cs@.subrange(a as int, b as int));
    let mut lowered = String::new();
    let mut i: usize = a;
    while i < b
        invariant
            a <= i <= b <= cs@.len(),
            t == cs@.subrange(a as int, b as int),
            lowered@ == t.take(i - a).map_values(|c: char| ascii_lower(c)),
        decreases b - i,
    {
        let c = cs[i];
        let l = if 'A' <= c && c <= 'Z' { ((c as u32) + 32) as u8 as char } else { c };
        proof {
            assert(t.take(i + 1 - a) =~= t.take(i - a).push(c));
            assert(l == ascii_lower(c)) by {
                if 'A' <= c <= 'Z' {
                    assert(((c as u32) + 32) as u8 as char == ((c as u32) + 32) as char);
                }
            }
        }
        push_char(&mut lowered, l);
        i += 1;
        assert(lowered@ =~= t.take(i - a).map_values(|c: char| ascii_lower(c)));
    }
    assert(t.take(b - a) =~= t);
    let text = lowered.as_str();
    text.unicode_len() > 0 && !str_eq(text, "0") && !str_eq(text, "off") && !str_eq(text, "false")
}

/// The preference before caching: the forced one, else the one
/// `RUST_BACKTRACE` gives.
pub fn detect_backtrace_preference(state: &BacktraceState, rust_backtrace: Option<&str>) -> (r: bool)
    ensures
        r == detected_preference(*state, opt_view(rust_backtrace)),
{
    match state.forced {
        Some(b) => b,
        None => backtrace_enabled_by_value(rust_backtrace),
    }
}

/// Whether to capture a backtrace: the cached decision when there is one,
/// otherwise the detected preference, which is then cached.
pub fn should_capture_backtrace(state: &mut BacktraceState, rust_backtrace: Option<&str>) -> (r: bool)
    ensures
        (r, *final(state)) == capture_step(*old(state), opt_view(rust_backtrace)),
{
    if state.cached == BACKTRACE_STATE_ENABLED {
        return true;
    }
    if state.cached == BACKTRACE_STATE_DISABLED {
        return false;
    }
    let enabled = detect_backtrace_preference(state, rust_backtrace);
    state.cached = if enabled { BACKTRACE_STATE_ENABLED } else { BACKTRACE_STATE_DISABLED };
    enabled
}

/// Clears the cached decision and the forced preference.
pub fn reset_backtrace_preference(state: &mut BacktraceState)
    ensures
        *final(state) == (BacktraceState { cached: BACKTRACE_STATE_UNSET, forced: None }),
{
    state.cached = BACKTRACE_STATE_UNSET;
    state.forced = None;
}

/// Forces a preference (or stops forcing with `None`); a decision already
/// cached stays.
pub fn set_backtrace_preference_override(state: &mut BacktraceState, value: Option<bool>)
    ensures
        *final(state) == (BacktraceState { forced: value, ..*old(state) }),
{
    state.forced = value;
}

/// `Backtrace::capture`: a snapshot of the current stack, whose content
/// depends on the machine and on the standard library's own settings.
#[verifier::external_body]
fn capture_current_backtrace() -> Arc<Backtrace> {
    Arc::new(Backtrace::capture())
}

/// A backtrace snapshot when capturing is decided on, else `None`.
pub fn capture_backtrace_snapshot(state: &mut BacktraceState, rust_backtrace: Option<&str>) -> (r: Option<Arc<Backtrace>>)
    ensures
        (r is Some, *final(state)) == capture_step(*old(state), opt_view(rust_backtrace)),
{
    if should_capture_backtrace(state, rust_backtrace) {
        Some(capture_current_backtrace())
    } else {
        None
    }
}

/// Once decided, the decision stays: later calls return it even when the
/// forced preference or `RUST_BACKTRACE` changed meanwhile.
pub proof fn law_backtrace_decision_is_cached(
    s: BacktraceState,
    first_env: Option<Seq<char>>,
    later_forced: Option<bool>,
    later_env: Option<Seq<char>>,
)
    ensures
        capture_step(BacktraceState { forced: later_forced, ..capture_step(s, first_env).1 }, later_env).0
            == capture_step(s, first_env).0,
{
}

/// A forced preference decides when nothing is cached yet.
pub proof fn law_forced_preference_decides(s: BacktraceState, env: Option<Seq<char>>, value: bool)
    requires
        s.cached == BACKTRACE_STATE_UNSET,
        s.forced == Some(value),
    ensures
        capture_step(s, env).0 == value,
{
}

} // verus!
