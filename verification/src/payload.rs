//! Values of the server payload that are read out of device text.

use vstd::prelude::*;
use crate::text::{ascii_lower, chars_of, is_whitespace, is_whitespace_char, string_of, trim_start_chars, trim_start_spec};

verus! {

/// `p` (lower case) occurs in `s` at `i` when case is ignored.
pub open spec fn matches_at_ci(s: Seq<char>, p: Seq<char>, i: int) -> bool {
    0 <= i && i + p.len() <= s.len() && forall|k: int| 0 <= k < p.len() ==> ascii_lower(#[trigger] s[i + k]) == p[k]
}

/// The first position, from `i` on, where `p` occurs in `s` ignoring case.
pub open spec fn find_ci_from(s: Seq<char>, p: Seq<char>, i: int) -> Option<int>
    decreases s.len() - i,
{
    if i < 0 || i + p.len() > s.len() {
        None
    } else if matches_at_ci(s, p, i) {
        Some(i)
    } else {
        find_ci_from(s, p, i + 1)
    }
}

/// A character that ends the version token: white space or a comma.
pub open spec fn ends_token(c: char) -> bool {
    is_whitespace(c) || c == ','
}

/// A position found is one where `p` occurs, at or after `i`.
proof fn lemma_find_ci_found(s: Seq<char>, p: Seq<char>, i: int)
    ensures
        find_ci_from(s, p, i) matches Some(j) ==> (i <= j && matches_at_ci(s, p, j)),
    decreases s.len() - i,
{
    if !(i < 0 || i + p.len() > s.len()) && !matches_at_ci(s, p, i) {
        lemma_find_ci_found(s, p, i + 1);
    }
}

/// The characters of `s` before its first white space or comma.
pub open spec fn first_token(s: Seq<char>) -> Seq<char>
    decreases s.len(),
{
    if s.len() == 0 || ends_token(s[0]) {
        Seq::empty()
    } else {
        seq![s[0]] + first_token(s.drop_first())
    }
}

/// The word after `p` in `s`, when `p` occurs (case ignored).
pub open spec fn word_after(s: Seq<char>, p: Seq<char>) -> Option<Seq<char>> {
    match find_ci_from(s, p, 0) {
        Some(i) => Some(first_token(trim_start_spec(s.skip(i + p.len())))),
        None => None,
    }
}

/// The firmware version in a system description: the word after the first
/// `software version `, else after the first `version ` (case ignored);
/// none when there is no such word.
pub open spec fn firmware_version_spec(descr: Seq<char>) -> Option<Seq<char>> {
    let w = match word_after(descr, "software version "@) {
        Some(w) => w,
        None => match word_after(descr, "version "@) {
            Some(w) => w,
            None => Seq::empty(),
        },
    };
    if w.len() > 0 {
        Some(w)
    } else {
        None
    }
}

/// ASCII lower case of one character.
fn lower_char(c: char) -> (r: char)
    ensures
        r == ascii_lower(c),
{
    if 'A' <= c && c <= 'Z' {
        ((c as u8) + 32) as char
    } else {
        c
    }
}

/// Whether `p` occurs in `s` at `i`, case ignored.
fn matches_at_ci_exec(s: &[char], p: &[char], i: usize) -> (r: bool)
    ensures
        r == matches_at_ci(s@, p@, i as int),
{
    if i > s.len() || p.len() > s.len() - i {
        return false;
    }
    let mut k: usize = 0;
    while k < p.len()
        invariant
            k <= p.len(),
            i + p.len() <= s.len(),
            forall|j: int| 0 <= j < k ==> ascii_lower(#[trigger] s@[i + j]) == p@[j],
        decreases p.len() - k,
    {
        if lower_char(s[i + k]) != p[k] {
            return false;
        }
        k += 1;
    }
    true
}

/// The first position where `p` occurs in `s`, case ignored.
fn find_ci(s: &[char], p: &[char]) -> (r: Option<usize>)
    ensures
        match r {
            Some(i) => find_ci_from(s@, p@, 0) == Some(i as int),
            None => find_ci_from(s@, p@, 0) is None,
        },
{
    let mut i: usize = 0;
    while i <= s.len() && p.len() <= s.len() - i
        invariant
            find_ci_from(s@, p@, 0) == find_ci_from(s@, p@, i as int),
        decreases s.len() - i,
    {
        if matches_at_ci_exec(s, p, i) {
            return Some(i);
        }
        i += 1;
    }
    None
}

/// The word of `s` after `p`, when `p` occurs (case ignored).
fn word_after_exec(s: &[char], p: &str) -> (r: Option<Vec<char>>)
    ensures
        match r {
            Some(w) => word_after(s@, p@) == Some(w@),
            None => word_after(s@, p@) is None,
        },
{
    let pc = chars_of(p);
    match find_ci(s, pc.as_slice()) {
        Some(i) => {
            proof {
                lemma_find_ci_found(s@, pc@, 0);
            }
            let slen = s.len();
            let rest = vstd::slice::slice_subrange(s, i + pc.len(), slen);
            assert(rest@ =~= s@.skip(i + pc@.len()));
            let t = trim_start_chars(rest);
            let mut n: usize = 0;
            assert(t@.skip(0) =~= t@);
            assert(t@.take(0) =~= Seq::<char>::empty());
            while n < t.len() && !(is_whitespace_char(t[n]) || t[n] == ',')
                invariant
                    n <= t@.len(),
                    first_token(t@) == t@.take(n as int) + first_token(t@.skip(n as int)),
                decreases t.len() - n,
            {
                assert(t@.skip(n as int).drop_first() =~= t@.skip(n + 1));
                assert(t@.take(n + 1) =~= t@.take(n as int) + seq![t@[n as int]]);
                n += 1;
            }
            let w = vstd::slice::slice_to_vec(vstd::slice::slice_subrange(t.as_slice(), 0, n));
            assert(w@ =~= t@.take(n as int));
            Some(w)
        },
        None => None,
    }
}

/// The firmware version named in a system description, if any.
pub fn firmware_version_from_descr(descr: &str) -> (r: Option<String>)
    ensures
        match r {
            Some(v) => firmware_version_spec(descr@) == Some(v@),
            None => firmware_version_spec(descr@) is None,
        },
{
    let cs = chars_of(descr);
    let w = match word_after_exec(cs.as_slice(), "software version ") {
        Some(w) => w,
        None => match word_after_exec(cs.as_slice(), "version ") {
            Some(w) => w,
            None => Vec::new(),
        },
    };
    if w.len() > 0 {
        Some(string_of(w.as_slice()))
    } else {
        None
    }
}

} // verus!
