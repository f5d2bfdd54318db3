//! Character-level scanning over the string values that directives carry.
//!
//! A directive value arrives as ordinary text: the trait-declaration key
//! holds a trait header (`pub trait Name`), a scoped-attribute key holds a
//! sequence of outer attributes (`#[doc = "x"] #[allow(unused)]`). The
//! functions here scan such text: skipping whitespace, finding the end of an
//! identifier run, finding a closing parenthesis, and checking that a string
//! reads as a sequence of bracketed attribute fragments (honouring nested
//! square brackets and double-quoted string literals with escapes).

use vstd::prelude::*;
use vstd::string::StrSliceExecFns;

verus! {

/// Whether a character is horizontal or vertical whitespace.
pub open spec fn is_ws(c: char) -> bool {
    c == ' ' || c == '\t' || c == '\n' || c == '\r'
}

/// Whether a character may continue an identifier.
pub open spec fn is_ident_char(c: char) -> bool {
    ('a' <= c && c <= 'z') || ('A' <= c && c <= 'Z') || ('0' <= c && c <= '9') || c == '_'
}

/// Whether a character may start an identifier.
pub open spec fn is_ident_start(c: char) -> bool {
    is_ident_char(c) && !('0' <= c && c <= '9')
}

/// The first position at or after `i` that does not hold whitespace.
pub open spec fn skip_ws(s: Seq<char>, i: int) -> int
    decreases s.len() - i,
{
    if 0 <= i < s.len() && is_ws(s[i]) {
        skip_ws(s, i + 1)
    } else {
        i
    }
}

/// The position just past the identifier run starting at `i`.
pub open spec fn ident_end(s: Seq<char>, i: int) -> int
    decreases s.len() - i,
{
    if 0 <= i < s.len() && is_ident_char(s[i]) {
        ident_end(s, i + 1)
    } else {
        i
    }
}

/// The position of the first `)` at or after `i`, if any.
pub open spec fn find_close(s: Seq<char>, i: int) -> Option<int>
    decreases s.len() - i,
{
    if 0 <= i < s.len() {
        if s[i] == ')' {
            Option::Some(i)
        } else {
            find_close(s, i + 1)
        }
    } else {
        Option::None
    }
}

/// The position just past the `]` that closes an attribute fragment whose
/// body starts at `i` with `depth` brackets open, honouring double-quoted
/// strings (`in_str`) and backslash escapes within them (`esc`).
pub open spec fn frag_end(s: Seq<char>, i: int, depth: int, in_str: bool, esc: bool) -> Option<
    int,
>
    decreases s.len() - i,
{
    if !(0 <= i < s.len()) {
        Option::None
    } else if in_str {
        if esc {
            frag_end(s, i + 1, depth, true, false)
        } else if s[i] == '\\' {
            frag_end(s, i + 1, depth, true, true)
        } else if s[i] == '"' {
            frag_end(s, i + 1, depth, false, false)
        } else {
            frag_end(s, i + 1, depth, true, false)
        }
    } else if s[i] == '"' {
        frag_end(s, i + 1, depth, true, false)
    } else if s[i] == '[' {
        frag_end(s, i + 1, depth + 1, false, false)
    } else if s[i] == ']' {
        if depth == 1 {
            Option::Some(i + 1)
        } else {
            frag_end(s, i + 1, depth - 1, false, false)
        }
    } else {
        frag_end(s, i + 1, depth, false, false)
    }
}

/// Whether the text from `i` on reads as whitespace-separated attribute
/// fragments, each of the form `#[ ... ]` with balanced brackets.
pub open spec fn attrs_wf_from(s: Seq<char>, i: int) -> bool
    decreases s.len() - i,
{
    if !(0 <= i <= s.len()) {
        false
    } else {
        let j = skip_ws(s, i);
        if j == s.len() {
            true
        } else if j + 1 < s.len() && s[j] == '#' && s[j + 1] == '[' {
            match frag_end(s, j + 2, 1, false, false) {
                Option::Some(e) => if i < e <= s.len() {
                    attrs_wf_from(s, e)
                } else {
                    false
                },
                Option::None => false,
            }
        } else {
            false
        }
    }
}

/// Whether a whole string reads as a (possibly empty) sequence of outer
/// attribute fragments.
pub open spec fn attrs_wf(s: Seq<char>) -> bool {
    attrs_wf_from(s, 0)
}

/// Whether a character is whitespace.
pub fn ws_char(c: char) -> (b: bool)
    ensures
        b == is_ws(c),
{
    c == ' ' || c == '\t' || c == '\n' || c == '\r'
}

/// Whether a character may continue an identifier.
pub fn ident_char(c: char) -> (b: bool)
    ensures
        b == is_ident_char(c),
{
    ('a' <= c && c <= 'z') || ('A' <= c && c <= 'Z') || ('0' <= c && c <= '9') || c == '_'
}

/// Skips whitespace from `i` on.
pub fn exec_skip_ws(s: &str, i: usize) -> (r: usize)
    requires
        i <= s@.len(),
    ensures
        r == skip_ws(s@, i as int),
        i <= r <= s@.len(),
{
    let n = s.unicode_len();
    let mut cur = i;
    while cur < n && ws_char(s.get_char(cur))
        invariant
            i <= cur <= n,
            n == s@.len(),
            skip_ws(s@, i as int) == skip_ws(s@, cur as int),
        decreases n - cur,
    {
        cur += 1;
    }
    cur
}

/// Finds the end of the identifier run starting at `i`.
pub fn exec_ident_end(s: &str, i: usize) -> (r: usize)
    requires
        i <= s@.len(),
    ensures
        r == ident_end(s@, i as int),
        i <= r <= s@.len(),
{
    let n = s.unicode_len();
    let mut cur = i;
    while cur < n && ident_char(s.get_char(cur))
        invariant
            i <= cur <= n,
            n == s@.len(),
            ident_end(s@, i as int) == ident_end(s@, cur as int),
        decreases n - cur,
    {
        cur += 1;
    }
    cur
}

/// Finds the first `)` at or after `i`.
pub fn exec_find_close(s: &str, i: usize) -> (r: Option<usize>)
    requires
        i <= s@.len(),
    ensures
        match r {
            Option::Some(k) => find_close(s@, i as int) == Option::Some(k as int) && i <= k
                < s@.len(),
            Option::None => find_close(s@, i as int) is None,
        },
{
    let n = s.unicode_len();
    let mut cur = i;
    while cur < n
        invariant
            i <= cur <= n,
            n == s@.len(),
            find_close(s@, i as int) == find_close(s@, cur as int),
        decreases n - cur,
    {
        if s.get_char(cur) == ')' {
            return Option::Some(cur);
        }
        cur += 1;
    }
    Option::None
}

/// Checks that a whole string reads as a sequence of outer attribute
/// fragments.
pub fn exec_attrs_wf(s: &str) -> (r: bool)
    ensures
        r == attrs_wf(s@),
{
    let n = s.unicode_len();
    let mut i: usize = 0;
    loop
        invariant
            0 <= i <= n,
            n == s@.len(),
            attrs_wf(s@) == attrs_wf_from(s@, i as int),
        decreases n - i,
    {
        let j = exec_skip_ws(s, i);
        if j == n {
            return true;
        }
        if !(j + 1 < n && s.get_char(j) == '#' && s.get_char(j + 1) == '[') {
            return false;
        }
        // scan one fragment body
        let mut cur = j + 2;
        let mut depth: usize = 1;
        let mut in_str = false;
        let mut esc = false;
        let ghost start = cur as int;
        loop
            invariant_except_break
                frag_end(s@, start, 1, false, false) == frag_end(
                    s@,
                    cur as int,
                    depth as int,
                    in_str,
                    esc,
                ),
            invariant
                j + 2 <= cur <= n,
                n == s@.len(),
                depth >= 1,
                depth <= cur,
                esc ==> in_str,
                i <= j,
                j == skip_ws(s@, i as int),
                j + 1 < n,
                s@[j as int] == '#',
                s@[j as int + 1] == '[',
                start == j + 2,
                attrs_wf(s@) == attrs_wf_from(s@, i as int),
            ensures
                frag_end(s@, start, 1, false, false) == Option::Some(cur as int),
            decreases n - cur,
        {
            if cur >= n {
                proof {
                    assert(frag_end(s@, start, 1, false, false) is None);
                    assert(!attrs_wf_from(s@, i as int));
                }
                return false;
            }
            let c = s.get_char(cur);
            if in_str {
                if esc {
                    esc = false;
                } else if c == '\\' {
                    esc = true;
                } else if c == '"' {
                    in_str = false;
                }
            } else if c == '"' {
                in_str = true;
            } else if c == '[' {
                depth += 1;
            } else if c == ']' {
                if depth == 1 {
                    cur += 1;
                    break;
                }
                depth -= 1;
            }
            cur += 1;
        }
        proof {
            assert(frag_end(s@, start, 1, false, false) == Option::Some(cur as int));
            assert(attrs_wf_from(s@, i as int) == attrs_wf_from(s@, cur as int));
        }
        i = cur;
    }
}

/// Whether the characters of `s` between `a` and `b` read exactly as `kw`.
pub fn match_keyword(s: &str, a: usize, b: usize, kw: &str) -> (r: bool)
    requires
        a <= b <= s@.len(),
    ensures
        r == (s@.subrange(a as int, b as int) == kw@),
{
    let klen = kw.unicode_len();
    if b - a != klen {
        proof {
            assert(s@.subrange(a as int, b as int).len() != kw@.len());
        }
        return false;
    }
    let mut q: usize = 0;
    while q < klen
        invariant
            0 <= q <= klen,
            klen == kw@.len(),
            b - a == klen,
            a <= b <= s@.len(),
            forall|m: int| 0 <= m < q ==> s@[a + m] == kw@[m],
        decreases klen - q,
    {
        if s.get_char(a + q) != kw.get_char(q) {
            proof {
                assert(s@.subrange(a as int, b as int)[q as int] == s@[a + q]);
                assert(s@.subrange(a as int, b as int) != kw@);
            }
            return false;
        }
        q += 1;
    }
    proof {
        assert(s@.subrange(a as int, b as int) =~= kw@);
    }
    true
}

/// Whether two strings read, character for character, the same.
pub fn str_eq(a: &str, kw: &str) -> (r: bool)
    ensures
        r == (a@ == kw@),
{
    let n = a.unicode_len();
    let r = match_keyword(a, 0, n, kw);
    proof {
        assert(a@.subrange(0, n as int) =~= a@);
    }
    r
}

} // verus!
