//! The small grammars of option values.
//!
//! Two option values carry structured text: a visibility specifier
//! (empty, `pub`, `pub(crate)`, `pub(super)`, `pub(self)`, or
//! `pub(in <path>)`) and a comma-separated list of capability paths
//! (identifier segments joined by `::`). Both grammars are defined here
//! over character sequences, together with the parsers that decide them.

use vstd::prelude::*;
use vstd::string::*;
use crate::decl::{SpecVisibility, Visibility};
use crate::text::{char_is_ident_continue, char_is_ident_start, find_char, is_ident_continue,
    is_ident_start, lemma_find_bounds, rskip_ws, skip_ws, spec_find, spec_rskip_ws, spec_skip_ws};

verus! {

/// What must follow the first segment of a path: either the end, or `::`
/// followed by another segment.
pub open spec fn spec_path_rest(s: Seq<char>, i: int, hi: int) -> bool
    decreases hi - i,
{
    if hi <= i {
        true
    } else if is_ident_continue(s[i]) {
        spec_path_rest(s, i + 1, hi)
    } else if s[i] == ':' {
        i + 2 < hi && s[i + 1] == ':' && is_ident_start(s[i + 2]) && spec_path_rest(s, i + 3, hi)
    } else {
        false
    }
}

/// Whether `[lo, hi)` of `s` is a capability path: identifier segments
/// joined by `::`, without surrounding whitespace.
pub open spec fn is_path_range(s: Seq<char>, lo: int, hi: int) -> bool {
    lo < hi && is_ident_start(s[lo]) && spec_path_rest(s, lo + 1, hi)
}

/// Whether the whole of `s` is a capability path.
pub open spec fn is_path(s: Seq<char>) -> bool {
    is_path_range(s, 0, s.len() as int)
}

pub fn path_range(s: &str, lo: usize, hi: usize) -> (r: bool)
    requires
        lo <= hi,
        hi as nat <= s@.len(),
    ensures
        r == is_path_range(s@, lo as int, hi as int),
{
    if lo == hi {
        return false;
    }
    if !char_is_ident_start(s.get_char(lo)) {
        return false;
    }
    let mut i = lo + 1;
    loop
        invariant
            i <= hi,
            hi as nat <= s@.len(),
            spec_path_rest(s@, lo as int + 1, hi as int) == spec_path_rest(s@, i as int, hi as int),
            is_ident_start(s@[lo as int]),
            lo < hi,
        decreases hi - i,
    {
        if i == hi {
            return true;
        }
        let c = s.get_char(i);
        if char_is_ident_continue(c) {
            i = i + 1;
        } else if c == ':' {
            if hi - i > 2 {
                if s.get_char(i + 1) == ':' {
                    if char_is_ident_start(s.get_char(i + 2)) {
                        i = i + 3;
                    } else {
                        return false;
                    }
                } else {
                    return false;
                }
            } else {
                return false;
            }
        } else {
            return false;
        }
    }
}

/// Whether the whole string is a capability path.
pub fn check_path(s: &str) -> (r: bool)
    ensures
        r == is_path(s@),
{
    let n = s.unicode_len();
    path_range(s, 0, n)
}

/// The comma-separated capability paths written in `[lo, hi)` of `s`, each
/// trimmed of surrounding whitespace, or `None` when some piece is not a
/// path. All-whitespace input is the empty list; one trailing comma is
/// accepted.
pub open spec fn spec_path_pieces(s: Seq<char>, lo: int, hi: int) -> Option<Seq<Seq<char>>>
    decreases hi - lo,
{
    let lo1 = spec_skip_ws(s, lo, hi);
    if lo1 == hi {
        Some(Seq::empty())
    } else {
        let j = spec_find(s, lo, hi, ',');
        let plo = spec_skip_ws(s, lo, j);
        let phi = spec_rskip_ws(s, plo, j);
        if !is_path_range(s, plo, phi) {
            None
        } else if j == hi {
            Some(seq![s.subrange(plo, phi)])
        } else {
            proof {
                lemma_find_bounds(s, lo, hi, ',');
            }
            match spec_path_pieces(s, j + 1, hi) {
                Some(rest) => Some(seq![s.subrange(plo, phi)] + rest),
                None => None,
            }
        }
    }
}

/// The capability paths written in the whole of `s`.
pub open spec fn spec_parse_path_list(s: Seq<char>) -> Option<Seq<Seq<char>>> {
    spec_path_pieces(s, 0, s.len() as int)
}

fn path_pieces(s: &str, lo: usize, hi: usize) -> (r: Option<Vec<String>>)
    requires
        lo <= hi,
        hi as nat <= s@.len(),
    ensures
        match r {
            Some(v) => spec_path_pieces(s@, lo as int, hi as int) == Some(v.deep_view()),
            None => spec_path_pieces(s@, lo as int, hi as int) is None,
        },
    decreases hi - lo,
{
    let lo1 = skip_ws(s, lo, hi);
    if lo1 == hi {
        let v: Vec<String> = Vec::new();
        proof {
            assert(v.deep_view() =~= Seq::<Seq<char>>::empty());
        }
        return Some(v);
    }
    let j = find_char(s, lo, hi, ',');
    let plo = skip_ws(s, lo, j);
    let phi = rskip_ws(s, plo, j);
    if !path_range(s, plo, phi) {
        return None;
    }
    let piece = s.substring_char(plo, phi).to_owned();
    if j == hi {
        let mut v: Vec<String> = Vec::new();
        v.push(piece);
        proof {
            assert(v.deep_view() =~= seq![s@.subrange(plo as int, phi as int)]);
        }
        return Some(v);
    }
    match path_pieces(s, j + 1, hi) {
        Some(mut rest) => {
            let ghost rest_pieces = rest.deep_view();
            rest.insert(0, piece);
            proof {
                assert(rest.deep_view() =~= seq![s@.subrange(plo as int, phi as int)]
                    + rest_pieces);
            }
            Some(rest)
        },
        None => None,
    }
}

/// Parses a comma-separated capability-path list, or reports that the text
/// is not one.
pub fn parse_path_list(s: &str) -> (r: Option<Vec<String>>)
    ensures
        match r {
            Some(v) => spec_parse_path_list(s@) == Some(v.deep_view()),
            None => spec_parse_path_list(s@) is None,
        },
{
    let n = s.unicode_len();
    path_pieces(s, 0, n)
}

/// Whether `[lo, hi)` of `s` is exactly the keyword `crate`.
pub open spec fn is_kw_crate(s: Seq<char>, lo: int, hi: int) -> bool {
    hi - lo == 5 && s[lo] == 'c' && s[lo + 1] == 'r' && s[lo + 2] == 'a' && s[lo + 3] == 't'
        && s[lo + 4] == 'e'
}

/// Whether `[lo, hi)` of `s` is exactly the keyword `super`.
pub open spec fn is_kw_super(s: Seq<char>, lo: int, hi: int) -> bool {
    hi - lo == 5 && s[lo] == 's' && s[lo + 1] == 'u' && s[lo + 2] == 'p' && s[lo + 3] == 'e'
        && s[lo + 4] == 'r'
}

/// Whether `[lo, hi)` of `s` is exactly the keyword `self`.
pub open spec fn is_kw_self(s: Seq<char>, lo: int, hi: int) -> bool {
    hi - lo == 4 && s[lo] == 's' && s[lo + 1] == 'e' && s[lo + 2] == 'l' && s[lo + 3] == 'f'
}

/// The restriction written between the parentheses of `pub(...)`, with the
/// range already stripped of the parentheses.
pub open spec fn spec_parse_restriction(s: Seq<char>, lo: int, hi: int) -> Option<SpecVisibility> {
    let ilo = spec_skip_ws(s, lo, hi);
    let ihi = spec_rskip_ws(s, ilo, hi);
    if is_kw_crate(s, ilo, ihi) {
        Some(SpecVisibility::Crate)
    } else if is_kw_super(s, ilo, ihi) {
        Some(SpecVisibility::Super)
    } else if is_kw_self(s, ilo, ihi) {
        Some(SpecVisibility::SelfScope)
    } else if ihi - ilo > 2 && s[ilo] == 'i' && s[ilo + 1] == 'n' && !is_ident_continue(
        s[ilo + 2],
    ) {
        let plo = spec_skip_ws(s, ilo + 2, ihi);
        if is_path_range(s, plo, ihi) {
            Some(SpecVisibility::InPath(s.subrange(plo, ihi)))
        } else {
            None
        }
    } else {
        None
    }
}

/// The visibility specifier written in `s`: empty means inherited; `pub`
/// alone is public; `pub(...)` restricts to a scope.
pub open spec fn spec_parse_visibility(s: Seq<char>) -> Option<SpecVisibility> {
    let n = s.len() as int;
    let lo = spec_skip_ws(s, 0, n);
    let hi = spec_rskip_ws(s, lo, n);
    if lo == hi {
        Some(SpecVisibility::Inherited)
    } else if !(hi - lo >= 3 && s[lo] == 'p' && s[lo + 1] == 'u' && s[lo + 2] == 'b') {
        None
    } else if lo + 3 == hi {
        Some(SpecVisibility::Public)
    } else if is_ident_continue(s[lo + 3]) {
        None
    } else {
        let p = spec_skip_ws(s, lo + 3, hi);
        if p == hi || s[p] != '(' || s[hi - 1] != ')' {
            None
        } else {
            spec_parse_restriction(s, p + 1, hi - 1)
        }
    }
}

fn parse_restriction(s: &str, lo: usize, hi: usize) -> (r: Option<Visibility>)
    requires
        lo <= hi,
        hi as nat <= s@.len(),
    ensures
        match r {
            Some(v) => spec_parse_restriction(s@, lo as int, hi as int) == Some(v@),
            None => spec_parse_restriction(s@, lo as int, hi as int) is None,
        },
{
    let ilo = skip_ws(s, lo, hi);
    let ihi = rskip_ws(s, ilo, hi);
    if ihi - ilo == 5 && s.get_char(ilo) == 'c' && s.get_char(ilo + 1) == 'r' && s.get_char(
        ilo + 2,
    ) == 'a' && s.get_char(ilo + 3) == 't' && s.get_char(ilo + 4) == 'e' {
        return Some(Visibility::Crate);
    }
    if ihi - ilo == 5 && s.get_char(ilo) == 's' && s.get_char(ilo + 1) == 'u' && s.get_char(
        ilo + 2,
    ) == 'p' && s.get_char(ilo + 3) == 'e' && s.get_char(ilo + 4) == 'r' {
        return Some(Visibility::Super);
    }
    if ihi - ilo == 4 && s.get_char(ilo) == 's' && s.get_char(ilo + 1) == 'e' && s.get_char(
        ilo + 2,
    ) == 'l' && s.get_char(ilo + 3) == 'f' {
        return Some(Visibility::SelfScope);
    }
    if ihi - ilo > 2 && s.get_char(ilo) == 'i' && s.get_char(ilo + 1) == 'n'
        && !char_is_ident_continue(s.get_char(ilo + 2)) {
        let plo = skip_ws(s, ilo + 2, ihi);
        if path_range(s, plo, ihi) {
            let p = s.substring_char(plo, ihi).to_owned();
            return Some(Visibility::InPath(p));
        }
        return None;
    }
    None
}

/// Parses a visibility specifier, or reports that the text is not one.
pub fn parse_visibility(s: &str) -> (r: Option<Visibility>)
    ensures
        match r {
            Some(v) => spec_parse_visibility(s@) == Some(v@),
            None => spec_parse_visibility(s@) is None,
        },
{
    let n = s.unicode_len();
    let lo = skip_ws(s, 0, n);
    let hi = rskip_ws(s, lo, n);
    if lo == hi {
        return Some(Visibility::Inherited);
    }
    if !(hi - lo >= 3 && s.get_char(lo) == 'p' && s.get_char(lo + 1) == 'u' && s.get_char(lo + 2)
        == 'b') {
        return None;
    }
    if lo + 3 == hi {
        return Some(Visibility::Public);
    }
    if char_is_ident_continue(s.get_char(lo + 3)) {
        return None;
    }
    let p = skip_ws(s, lo + 3, hi);
    if p == hi {
        return None;
    }
    if s.get_char(p) != '(' {
        return None;
    }
    if s.get_char(hi - 1) != ')' {
        return None;
    }
    parse_restriction(s, p + 1, hi - 1)
}

} // verus!
