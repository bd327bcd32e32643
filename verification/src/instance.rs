//! The single-instance file: the running instance writes its process id there,
//! and a new instance reads it back to find the one to replace.

use vstd::prelude::*;

use crate::text::{chars_of, decimal_chars, decimal_value, is_digit, lemma_decimal_chars, push_decimal};

verus! {

/// `c` has the Unicode `White_Space` property, as `char::is_whitespace` tests.
pub open spec fn is_whitespace(c: char) -> bool {
    let u = c as u32;
    (0x09 <= u <= 0x0D) || u == 0x20 || u == 0x85 || u == 0xA0 || u == 0x1680 || (0x2000 <= u
        <= 0x200A) || u == 0x2028 || u == 0x2029 || u == 0x202F || u == 0x205F || u == 0x3000
}

fn is_whitespace_exec(c: char) -> (r: bool)
    ensures
        r == is_whitespace(c),
{
    let u = c as u32;
    (0x09 <= u && u <= 0x0D) || u == 0x20 || u == 0x85 || u == 0xA0 || u == 0x1680 || (0x2000 <= u
        && u <= 0x200A) || u == 0x2028 || u == 0x2029 || u == 0x202F || u == 0x205F || u == 0x3000
}

/// The index of the first character at or after `i` that is not whitespace, or
/// the length when there is none.
pub open spec fn first_non_ws(s: Seq<char>, i: int) -> int
    decreases s.len() - i,
{
    if i < 0 || i >= s.len() {
        s.len() as int
    } else if is_whitespace(s[i]) {
        first_non_ws(s, i + 1)
    } else {
        i
    }
}

/// One past the last character before `j` that is not whitespace, or 0.
pub open spec fn end_non_ws(s: Seq<char>, j: int) -> int
    decreases j,
{
    if j <= 0 || j > s.len() {
        0
    } else if is_whitespace(s[j - 1]) {
        end_non_ws(s, j - 1)
    } else {
        j
    }
}

/// `s` without leading and trailing whitespace, as `str::trim` gives it.
pub open spec fn trim(s: Seq<char>) -> Seq<char> {
    let a = first_non_ws(s, 0);
    if a >= s.len() {
        Seq::empty()
    } else {
        s.subrange(a, end_non_ws(s, s.len() as int))
    }
}

/// `s` without one leading `+`, where it has one.
pub open spec fn unsigned_part(s: Seq<char>) -> Seq<char> {
    if s.len() > 0 && s[0] == '+' {
        s.drop_first()
    } else {
        s
    }
}

proof fn lemma_radix10_rejects(t: Seq<char>, k: int)
    requires
        0 <= k < unsigned_part(t).len(),
        !is_digit(unsigned_part(t)[k]),
    ensures
        radix10(t) is None,
{
}

proof fn lemma_radix10_too_large(t: Seq<char>, k: int)
    requires
        0 <= k < unsigned_part(t).len(),
        decimal_value(unsigned_part(t).take(k + 1)) > u32::MAX,
    ensures
        radix10(t) is None,
{
    let d = unsigned_part(t);
    if forall|j: int| 0 <= j < d.len() ==> is_digit(#[trigger] d[j]) {
        lemma_decimal_value_grows(d, k + 1);
    }
}

/// What `str::parse::<u32>` gives: an optional leading `+`, then one or more
/// decimal digits whose value fits in a `u32`.
pub open spec fn radix10(s: Seq<char>) -> Option<u32> {
    let d = unsigned_part(s);
    if d.len() > 0 && (forall|i: int| 0 <= i < d.len() ==> is_digit(#[trigger] d[i])) && decimal_value(d)
        <= u32::MAX {
        Some(decimal_value(d) as u32)
    } else {
        None
    }
}

/// The process id the instance file holds: its text, trimmed, as a `u32`.
pub open spec fn spec_parse_pid(content: Seq<char>) -> Option<u32> {
    radix10(trim(content))
}

proof fn lemma_first_non_ws_bounds(s: Seq<char>, i: int)
    requires
        0 <= i <= s.len(),
    ensures
        i <= first_non_ws(s, i) <= s.len(),
        forall|k: int| i <= k < first_non_ws(s, i) ==> is_whitespace(#[trigger] s[k]),
        first_non_ws(s, i) < s.len() ==> !is_whitespace(s[first_non_ws(s, i)]),
    decreases s.len() - i,
{
    if i < s.len() && is_whitespace(s[i]) {
        lemma_first_non_ws_bounds(s, i + 1);
    }
}

proof fn lemma_end_non_ws_bounds(s: Seq<char>, j: int)
    requires
        0 <= j <= s.len(),
    ensures
        0 <= end_non_ws(s, j) <= j,
        forall|k: int| end_non_ws(s, j) <= k < j ==> is_whitespace(#[trigger] s[k]),
        end_non_ws(s, j) > 0 ==> !is_whitespace(s[end_non_ws(s, j) - 1]),
    decreases j,
{
    if j > 0 && is_whitespace(s[j - 1]) {
        lemma_end_non_ws_bounds(s, j - 1);
    }
}

proof fn lemma_decimal_value_grows(d: Seq<char>, k: int)
    requires
        0 <= k <= d.len(),
        forall|i: int| 0 <= i < d.len() ==> is_digit(#[trigger] d[i]),
    ensures
        decimal_value(d.take(k)) <= decimal_value(d),
    decreases d.len() - k,
{
    if k < d.len() {
        let e = d.take(k + 1);
        lemma_decimal_value_grows(d, k + 1);
        assert(e.drop_last() =~= d.take(k));
        assert(is_digit(e.last()));
    } else {
        assert(d.take(k) =~= d);
    }
}

/// Reads the process id from the instance file's text: the text trimmed of
/// whitespace, as a decimal `u32` with an optional `+`.
pub fn parse_pid(content: &str) -> (r: Option<u32>)
    ensures
        r == spec_parse_pid(content@),
{
    let s = chars_of(content);
    let n = s.len();
    let mut a: usize = 0;
    while a < n && is_whitespace_exec(s[a])
        invariant
            a <= n,
            n == s@.len(),
            first_non_ws(s@, a as int) == first_non_ws(s@, 0),
        decreases n - a,
    {
        a = a + 1;
    }
    assert(first_non_ws(s@, a as int) == a);
    if a >= n {
        return None;
    }
    let mut b: usize = n;
    while b > 0 && is_whitespace_exec(s[b - 1])
        invariant
            b <= n,
            n == s@.len(),
            end_non_ws(s@, b as int) == end_non_ws(s@, n as int),
        decreases b,
    {
        b = b - 1;
    }
    assert(end_non_ws(s@, b as int) == b);
    let ghost t = trim(s@);
    assert(a < b) by {
        lemma_end_non_ws_bounds(s@, n as int);
        lemma_first_non_ws_bounds(s@, 0);
        if b <= a {
            assert(a < n);
            assert(!is_whitespace(s@[a as int]));
            assert(b <= a < n);
        }
    }
    assert(t =~= s@.subrange(a as int, b as int));
    let start: usize = if s[a] == '+' { a + 1 } else { a };
    let ghost d = unsigned_part(t);
    assert(d =~= s@.subrange(start as int, b as int));
    if start >= b {
        return None;
    }
    let mut acc: u32 = 0;
    let mut i: usize = start;
    while i < b
        invariant
            start <= i <= b,
            a <= start,
            a < b,
            b <= s@.len(),
            start < b,
            d =~= s@.subrange(start as int, b as int),
            t =~= s@.subrange(a as int, b as int),
            d == unsigned_part(t),
            t == trim(s@),
            s@ == content@,
            forall|k: int| 0 <= k < i - start ==> is_digit(#[trigger] d[k]),
            acc as nat == decimal_value(d.take(i - start)),
        decreases b - i,
    {
        let c = s[i];
        let ghost k = (i - start) as int;
        if !('0' <= c && c <= '9') {
            assert(d[k] == c);
            proof {
                lemma_radix10_rejects(t, k);
            }
            return None;
        }
        let digit = (c as u32) - 48;
        proof {
            assert(d.take(k + 1).drop_last() =~= d.take(k));
            assert(d.take(k + 1).last() == c);
        }
        let m = acc.checked_mul(10);
        let next = match m {
            Some(v) => v.checked_add(digit),
            None => None,
        };
        match next {
            Some(v) => {
                acc = v;
            },
            None => {
                proof {
                    assert(decimal_value(d.take(k + 1)) > u32::MAX);
                    lemma_radix10_too_large(t, k);
                }
                return None;
            },
        }
        i = i + 1;
    }
    assert(d.take(d.len() as int) =~= d);
    Some(acc)
}


/// The text written to the instance file for process id `pid`.
pub fn pid_file_content(pid: u32) -> (r: String)
    ensures
        r@ == decimal_chars(pid as nat),
{
    let mut out = String::new();
    push_decimal(&mut out, pid);
    out
}

/// Reading the instance file gives back the process id written to it.
pub proof fn lemma_pid_roundtrip(pid: u32)
    ensures
        spec_parse_pid(decimal_chars(pid as nat)) == Some(pid),
{
    let s = decimal_chars(pid as nat);
    lemma_decimal_chars(pid as nat);
    assert(!is_whitespace(s[0]));
    assert(!is_whitespace(s[s.len() - 1]));
    assert(first_non_ws(s, 0) == 0);
    assert(end_non_ws(s, s.len() as int) == s.len());
    assert(trim(s) =~= s);
    assert(s[0] != '+');
}

/// Why the running instance could not be replaced.
#[derive(Clone, Copy, Debug, PartialEq, Eq, Structural)]
pub enum InstanceError {
    /// The cover window found does not belong to the process the file names.
    NotOwnedByPid,
    /// No cover window was found.
    CoverNotFound,
    /// The running instance did not remove its file in time.
    TimedOut,
}

impl InstanceError {
    /// The text that describes the error.
    pub fn message(&self) -> (r: &'static str)
        ensures
            r@ == (match *self {
                InstanceError::NotOwnedByPid => "Handle not owned by PID"@,
                InstanceError::CoverNotFound => "Unable to find desktop cover class"@,
                InstanceError::TimedOut => "Timed out waiting for existing instance to exit"@,
            }),
    {
        match self {
            InstanceError::NotOwnedByPid => "Handle not owned by PID",
            InstanceError::CoverNotFound => "Unable to find desktop cover class",
            InstanceError::TimedOut => "Timed out waiting for existing instance to exit",
        }
    }
}

/// What to do about a running instance, given the instance file's text (`None`
/// when there is no file), the process owning the cover window found (0 when
/// none is), and whether a cover window was found: `Ok(false)` when there is
/// nothing to replace, `Ok(true)` to tell that window to close and wait for the
/// file to go, or the error that stops the replacement.
pub fn plan_replace(content: Option<&str>, window_pid: u32, window_found: bool) -> (r: Result<bool, InstanceError>)
    ensures
        r == (match content {
            None => Ok(false),
            Some(c) => match spec_parse_pid(c@) {
                None => Ok(false),
                Some(pid) => if window_pid != pid {
                    Err(InstanceError::NotOwnedByPid)
                } else if window_found {
                    Ok(true)
                } else {
                    Err(InstanceError::CoverNotFound)
                },
            },
        }),
{
    let c = match content {
        None => return Ok(false),
        Some(c) => c,
    };
    let pid = match parse_pid(c) {
        None => return Ok(false),
        Some(p) => p,
    };
    if window_pid != pid {
        Err(InstanceError::NotOwnedByPid)
    } else if window_found {
        Ok(true)
    } else {
        Err(InstanceError::CoverNotFound)
    }
}

/// Longest wait, in milliseconds, for the replaced instance to remove its file.
pub const EXIT_WAIT_MS: u64 = 2000;

/// While the file is still there after `elapsed_ms` milliseconds: the wait has
/// timed out once it is longer than `EXIT_WAIT_MS`.
pub fn wait_timed_out(elapsed_ms: u64) -> (r: bool)
    ensures
        r == (elapsed_ms > EXIT_WAIT_MS),
{
    elapsed_ms > EXIT_WAIT_MS
}

} // verus!

