//! Reading `key = 'value'` settings from an extension control file.
//!
//! A setting is found on the first line that, trimmed of whitespace, starts
//! with the key, followed (after optional whitespace) by `=`; its value is the
//! rest of the line trimmed of whitespace, then of surrounding single
//! quotes, then of surrounding double quotes. Lines whose value comes out
//! empty are skipped.
//!
//! Text is handled as a sequence of characters; positions are character
//! indices.

use vstd::prelude::*;

verus! {

/// Unicode `White_Space`, as `char::is_whitespace` reads it.
pub open spec fn is_whitespace(c: char) -> bool {
    let u = c as u32;
    ||| 0x09 <= u <= 0x0d
    ||| u == 0x20
    ||| u == 0x85
    ||| u == 0xa0
    ||| u == 0x1680
    ||| 0x2000 <= u <= 0x200a
    ||| u == 0x2028
    ||| u == 0x2029
    ||| u == 0x202f
    ||| u == 0x205f
    ||| u == 0x3000
}

/// The first position in `[i, j)` whose character is not whitespace, or `j`.
pub open spec fn skip_ws_fwd(s: Seq<char>, i: int, j: int) -> int
    decreases j - i,
{
    if i < j && is_whitespace(s[i]) { skip_ws_fwd(s, i + 1, j) } else { i }
}

/// The end of `[i, j)` once trailing whitespace is dropped.
pub open spec fn skip_ws_bwd(s: Seq<char>, i: int, j: int) -> int
    decreases j - i,
{
    if i < j && is_whitespace(s[j - 1]) { skip_ws_bwd(s, i, j - 1) } else { j }
}

/// The first position in `[i, j)` whose character is not `c`, or `j`.
pub open spec fn skip_char_fwd(s: Seq<char>, i: int, j: int, c: char) -> int
    decreases j - i,
{
    if i < j && s[i] == c { skip_char_fwd(s, i + 1, j, c) } else { i }
}

/// The end of `[i, j)` once trailing `c` characters are dropped.
pub open spec fn skip_char_bwd(s: Seq<char>, i: int, j: int, c: char) -> int
    decreases j - i,
{
    if i < j && s[j - 1] == c { skip_char_bwd(s, i, j - 1, c) } else { j }
}

/// `s[a..b]` starts with `key`.
pub open spec fn starts_with_at(s: Seq<char>, a: int, b: int, key: Seq<char>) -> bool {
    &&& b - a >= key.len()
    &&& s.subrange(a, a + key.len()) == key
}

/// The value of `key` on the line `s[i..j]`, as a range of positions, if the
/// line sets it to a non-empty value.
pub open spec fn line_value(s: Seq<char>, i: int, j: int, key: Seq<char>) -> Option<(int, int)> {
    let a = skip_ws_fwd(s, i, j);
    let b = skip_ws_bwd(s, a, j);
    if !starts_with_at(s, a, b, key) {
        None
    } else {
        let c = skip_ws_fwd(s, a + key.len(), b);
        if !(c < b && s[c] == '=') {
            None
        } else {
            let d = skip_ws_fwd(s, c + 1, b);
            let e = skip_ws_bwd(s, d, b);
            let f = skip_char_fwd(s, d, e, '\'');
            let g = skip_char_bwd(s, f, e, '\'');
            let h = skip_char_fwd(s, f, g, '"');
            let k = skip_char_bwd(s, h, g, '"');
            if h < k { Some((h, k)) } else { None }
        }
    }
}

/// The end of the line starting at `i`: the next newline, or the end.
pub open spec fn line_end(s: Seq<char>, i: int) -> int
    decreases s.len() - i,
{
    if 0 <= i < s.len() && s[i] != '\n' { line_end(s, i + 1) } else { i }
}

/// A line ends at a newline or at the end of the text, not before it starts.
pub proof fn lemma_line_end_bounds(s: Seq<char>, i: int)
    requires
        0 <= i <= s.len(),
    ensures
        i <= line_end(s, i) <= s.len(),
        line_end(s, i) < s.len() ==> s[line_end(s, i)] == '\n',
    decreases s.len() - i,
{
    if i < s.len() && s[i] != '\n' {
        lemma_line_end_bounds(s, i + 1);
    }
}

/// The value of `key` on the first line, from the one starting at `i`, that
/// sets it.
pub open spec fn value_from(s: Seq<char>, i: int, key: Seq<char>) -> Option<(int, int)>
    decreases s.len() + 1 - i,
{
    if i < 0 || i > s.len() {
        None
    } else {
        let e = line_end(s, i);
        match line_value(s, i, e, key) {
            Some(r) => Some(r),
            None => if e < s.len() {
                proof {
                    lemma_line_end_bounds(s, i);
                }
                value_from(s, e + 1, key)
            } else {
                None
            },
        }
    }
}

/// The value a control file's text gives `key`, if any.
pub open spec fn spec_control_value(s: Seq<char>, key: Seq<char>) -> Option<Seq<char>> {
    match value_from(s, 0, key) {
        Some((h, k)) => Some(s.subrange(h, k)),
        None => None,
    }
}

fn char_is_whitespace(c: char) -> (r: bool)
    ensures
        r == is_whitespace(c),
{
    let u = c as u32;
    (0x09 <= u && u <= 0x0d) || u == 0x20 || u == 0x85 || u == 0xa0 || u == 0x1680 || (0x2000
        <= u && u <= 0x200a) || u == 0x2028 || u == 0x2029 || u == 0x202f || u == 0x205f || u
        == 0x3000
}

fn ws_fwd(s: &str, i: usize, j: usize) -> (r: usize)
    requires
        i <= j <= s@.len(),
    ensures
        r == skip_ws_fwd(s@, i as int, j as int),
        i <= r <= j,
{
    let mut k = i;
    while k < j && char_is_whitespace(s.get_char(k))
        invariant
            i <= k <= j <= s@.len(),
            skip_ws_fwd(s@, k as int, j as int) == skip_ws_fwd(s@, i as int, j as int),
        decreases j - k,
    {
        k = k + 1;
    }
    k
}

fn ws_bwd(s: &str, i: usize, j: usize) -> (r: usize)
    requires
        i <= j <= s@.len(),
    ensures
        r == skip_ws_bwd(s@, i as int, j as int),
        i <= r <= j,
{
    let mut k = j;
    while k > i && char_is_whitespace(s.get_char(k - 1))
        invariant
            i <= k <= j <= s@.len(),
            skip_ws_bwd(s@, i as int, k as int) == skip_ws_bwd(s@, i as int, j as int),
        decreases k - i,
    {
        k = k - 1;
    }
    k
}

fn char_fwd(s: &str, i: usize, j: usize, c: char) -> (r: usize)
    requires
        i <= j <= s@.len(),
    ensures
        r == skip_char_fwd(s@, i as int, j as int, c),
        i <= r <= j,
{
    let mut k = i;
    while k < j && s.get_char(k) == c
        invariant
            i <= k <= j <= s@.len(),
            skip_char_fwd(s@, k as int, j as int, c) == skip_char_fwd(s@, i as int, j as int, c),
        decreases j - k,
    {
        k = k + 1;
    }
    k
}

fn char_bwd(s: &str, i: usize, j: usize, c: char) -> (r: usize)
    requires
        i <= j <= s@.len(),
    ensures
        r == skip_char_bwd(s@, i as int, j as int, c),
        i <= r <= j,
{
    let mut k = j;
    while k > i && s.get_char(k - 1) == c
        invariant
            i <= k <= j <= s@.len(),
            skip_char_bwd(s@, i as int, k as int, c) == skip_char_bwd(s@, i as int, j as int, c),
        decreases k - i,
    {
        k = k - 1;
    }
    k
}

pub(crate) fn starts_with_exec(s: &str, a: usize, b: usize, key: &str, klen: usize) -> (r: bool)
    requires
        a <= b <= s@.len(),
        klen == key@.len(),
    ensures
        r == starts_with_at(s@, a as int, b as int, key@),
{
    if b - a < klen {
        return false;
    }
    let mut i: usize = 0;
    while i < klen
        invariant
            a + klen <= b <= s@.len(),
            klen == key@.len(),
            i <= klen,
            forall|t: int| 0 <= t < i ==> s@[a + t] == key@[t],
        decreases klen - i,
    {
        if s.get_char(a + i) != key.get_char(i) {
            assert(s@.subrange(a as int, a + klen)[i as int] != key@[i as int]);
            return false;
        }
        i = i + 1;
    }
    assert(s@.subrange(a as int, a + klen) =~= key@);
    true
}

fn line_value_exec(s: &str, i: usize, j: usize, key: &str, klen: usize) -> (r: Option<(usize, usize)>)
    requires
        i <= j <= s@.len(),
        klen == key@.len(),
    ensures
        match line_value(s@, i as int, j as int, key@) {
            Some((h, k)) => r == Some((h as usize, k as usize)) && i <= h < k <= j,
            None => r is None,
        },
{
    let a = ws_fwd(s, i, j);
    let b = ws_bwd(s, a, j);
    if !starts_with_exec(s, a, b, key, klen) {
        return None;
    }
    let c = ws_fwd(s, a + klen, b);
    if !(c < b && s.get_char(c) == '=') {
        return None;
    }
    let d = ws_fwd(s, c + 1, b);
    let e = ws_bwd(s, d, b);
    let f = char_fwd(s, d, e, '\'');
    let g = char_bwd(s, f, e, '\'');
    let h = char_fwd(s, f, g, '"');
    let k = char_bwd(s, h, g, '"');
    if h < k {
        Some((h, k))
    } else {
        None
    }
}

fn line_end_exec(s: &str, i: usize, n: usize) -> (e: usize)
    requires
        i <= n,
        n == s@.len(),
    ensures
        e == line_end(s@, i as int),
        i <= e <= n,
{
    let mut k = i;
    while k < n && s.get_char(k) != '\n'
        invariant
            i <= k <= n,
            n == s@.len(),
            line_end(s@, k as int) == line_end(s@, i as int),
        decreases n - k,
    {
        k = k + 1;
    }
    k
}

/// The value the control file text `control` gives `key`, if a line sets it
/// (see the module documentation).
pub fn control_value(control: &str, key: &str) -> (r: Option<String>)
    ensures
        match spec_control_value(control@, key@) {
            Some(v) => r matches Some(out) && out@ == v,
            None => r is None,
        },
{
    let n = control.unicode_len();
    let klen = key.unicode_len();
    let mut i: usize = 0;
    loop
        invariant
            i <= n,
            n == control@.len(),
            klen == key@.len(),
            value_from(control@, i as int, key@) == value_from(control@, 0, key@),
        decreases n - i,
    {
        let e = line_end_exec(control, i, n);
        match line_value_exec(control, i, e, key, klen) {
            Some((h, k)) => {
                let v = control.substring_char(h, k);
                return Some(v.to_owned());
            },
            None => {},
        }
        if e < n {
            i = e + 1;
        } else {
            return None;
        }
    }
}

/// `module_pathname = '...'` from a control file's text, if present.
pub fn control_module_pathname(control: &str) -> (r: Option<String>)
    ensures
        match spec_control_value(control@, "module_pathname"@) {
            Some(v) => r matches Some(out) && out@ == v,
            None => r is None,
        },
{
    control_value(control, "module_pathname")
}

/// `default_version = '...'` from a control file's text, if present.
pub fn control_default_version(control: &str) -> (r: Option<String>)
    ensures
        match spec_control_value(control@, "default_version"@) {
            Some(v) => r matches Some(out) && out@ == v,
            None => r is None,
        },
{
    control_value(control, "default_version")
}

} // verus!
