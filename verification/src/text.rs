//! Character classes and low-level scanning over string slices.
//!
//! The option grammars (visibility specifiers, capability-path lists,
//! identifiers) are defined over the character sequence of a string.
//! This module holds the character classes, the scanning primitives that
//! the grammar parsers are built from, and plain string equality.

use vstd::prelude::*;
use vstd::string::*;

verus! {

/// Whitespace as the option grammars accept it.
pub open spec fn is_ws(c: char) -> bool {
    c == ' ' || c == '\t' || c == '\n' || c == '\r'
}

/// Characters that may begin an identifier segment.
pub open spec fn is_ident_start(c: char) -> bool {
    c == '_' || ('a' as u32 <= c as u32 && c as u32 <= 'z' as u32) || ('A' as u32 <= c as u32
        && c as u32 <= 'Z' as u32)
}

/// Characters that may continue an identifier segment.
pub open spec fn is_ident_continue(c: char) -> bool {
    is_ident_start(c) || ('0' as u32 <= c as u32 && c as u32 <= '9' as u32)
}

pub fn char_is_ws(c: char) -> (r: bool)
    ensures
        r == is_ws(c),
{
    c == ' ' || c == '\t' || c == '\n' || c == '\r'
}

pub fn char_is_ident_start(c: char) -> (r: bool)
    ensures
        r == is_ident_start(c),
{
    c == '_' || ('a' as u32 <= c as u32 && c as u32 <= 'z' as u32) || ('A' as u32 <= c as u32
        && c as u32 <= 'Z' as u32)
}

pub fn char_is_ident_continue(c: char) -> (r: bool)
    ensures
        r == is_ident_continue(c),
{
    char_is_ident_start(c) || ('0' as u32 <= c as u32 && c as u32 <= '9' as u32)
}

/// First index in `[i, hi)` holding a non-whitespace character, else `hi`.
pub open spec fn spec_skip_ws(s: Seq<char>, i: int, hi: int) -> int
    decreases hi - i,
{
    if hi <= i {
        hi
    } else if is_ws(s[i]) {
        spec_skip_ws(s, i + 1, hi)
    } else {
        i
    }
}

/// Largest index `j` in `[lo, hi]` such that `s[j - 1]` is not whitespace,
/// else `lo`.
pub open spec fn spec_rskip_ws(s: Seq<char>, lo: int, j: int) -> int
    decreases j - lo,
{
    if j <= lo {
        lo
    } else if is_ws(s[j - 1]) {
        spec_rskip_ws(s, lo, j - 1)
    } else {
        j
    }
}

/// First index in `[i, hi)` holding the character `c`, else `hi`.
pub open spec fn spec_find(s: Seq<char>, i: int, hi: int, c: char) -> int
    decreases hi - i,
{
    if hi <= i {
        hi
    } else if s[i] == c {
        i
    } else {
        spec_find(s, i + 1, hi, c)
    }
}

pub proof fn lemma_find_bounds(s: Seq<char>, i: int, hi: int, c: char)
    requires
        i <= hi,
    ensures
        i <= spec_find(s, i, hi, c) <= hi,
        spec_find(s, i, hi, c) < hi ==> s[spec_find(s, i, hi, c)] == c,
    decreases hi - i,
{
    if i < hi && s[i] != c {
        lemma_find_bounds(s, i + 1, hi, c);
    }
}

pub fn skip_ws(s: &str, i: usize, hi: usize) -> (r: usize)
    requires
        i <= hi,
        hi as nat <= s@.len(),
    ensures
        r as int == spec_skip_ws(s@, i as int, hi as int),
        i <= r <= hi,
{
    let mut j = i;
    loop
        invariant
            i <= j <= hi,
            hi as nat <= s@.len(),
            spec_skip_ws(s@, i as int, hi as int) == spec_skip_ws(s@, j as int, hi as int),
        decreases hi - j,
    {
        if j == hi {
            return j;
        }
        let c = s.get_char(j);
        if !char_is_ws(c) {
            return j;
        }
        j = j + 1;
    }
}

pub fn rskip_ws(s: &str, lo: usize, j: usize) -> (r: usize)
    requires
        lo <= j,
        j as nat <= s@.len(),
    ensures
        r as int == spec_rskip_ws(s@, lo as int, j as int),
        lo <= r <= j,
{
    let mut k = j;
    loop
        invariant
            lo <= k <= j,
            j as nat <= s@.len(),
            spec_rskip_ws(s@, lo as int, j as int) == spec_rskip_ws(s@, lo as int, k as int),
        decreases k,
    {
        if k == lo {
            return k;
        }
        let c = s.get_char(k - 1);
        if !char_is_ws(c) {
            return k;
        }
        k = k - 1;
    }
}

pub fn find_char(s: &str, i: usize, hi: usize, c: char) -> (r: usize)
    requires
        i <= hi,
        hi as nat <= s@.len(),
    ensures
        r as int == spec_find(s@, i as int, hi as int, c),
        i <= r <= hi,
        r < hi ==> s@[r as int] == c,
{
    let mut j = i;
    loop
        invariant
            i <= j <= hi,
            hi as nat <= s@.len(),
            spec_find(s@, i as int, hi as int, c) == spec_find(s@, j as int, hi as int, c),
        decreases hi - j,
    {
        if j == hi {
            return j;
        }
        if s.get_char(j) == c {
            return j;
        }
        j = j + 1;
    }
}

/// Whether `[lo, hi)` of `s` is a single identifier segment.
pub open spec fn is_ident_range(s: Seq<char>, lo: int, hi: int) -> bool {
    lo < hi && is_ident_start(s[lo]) && (forall|k: int|
        lo < k < hi ==> is_ident_continue(#[trigger] s[k]))
}

/// Whether the whole of `s` is a single identifier segment.
pub open spec fn is_ident(s: Seq<char>) -> bool {
    is_ident_range(s, 0, s.len() as int)
}

pub fn ident_range(s: &str, lo: usize, hi: usize) -> (r: bool)
    requires
        lo <= hi,
        hi as nat <= s@.len(),
    ensures
        r == is_ident_range(s@, lo as int, hi as int),
{
    if lo == hi {
        return false;
    }
    if !char_is_ident_start(s.get_char(lo)) {
        return false;
    }
    let mut k = lo + 1;
    while k < hi
        invariant
            lo < k <= hi,
            hi as nat <= s@.len(),
            is_ident_start(s@[lo as int]),
            forall|m: int| lo < m < k ==> is_ident_continue(#[trigger] s@[m]),
        decreases hi - k,
    {
        if !char_is_ident_continue(s.get_char(k)) {
            return false;
        }
        k = k + 1;
    }
    true
}

/// Whether a string is a single identifier.
pub fn check_ident(s: &str) -> (r: bool)
    ensures
        r == is_ident(s@),
{
    let n = s.unicode_len();
    ident_range(s, 0, n)
}

/// Plain string equality, decided character by character.
pub fn str_eq(a: &str, b: &str) -> (r: bool)
    ensures
        r == (a@ == b@),
{
    let na = a.unicode_len();
    let nb = b.unicode_len();
    if na != nb {
        return false;
    }
    let mut i: usize = 0;
    while i < na
        invariant
            i <= na,
            na as nat == a@.len(),
            na as nat == b@.len(),
            forall|k: int| 0 <= k < i ==> a@[k] == b@[k],
        decreases na - i,
    {
        if a.get_char(i) != b.get_char(i) {
            return false;
        }
        i = i + 1;
    }
    proof {
        assert(a@ =~= b@);
    }
    true
}

} // verus!
