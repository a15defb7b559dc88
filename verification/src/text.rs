//! Character classification and scanning over lines of input.
//!
//! The grammar works on whole characters. A line is modelled as its
//! `Seq<char>` view; `scan` gives the end of a maximal run of one character
//! class, and the case-insensitive literal match is defined character by
//! character over ASCII letters.

use vstd::prelude::*;

verus! {

/// The character classes the grammar distinguishes.
#[derive(Clone, Copy, PartialEq, Eq, Structural, Debug)]
pub enum CharClass {
    /// Space, tab, carriage return or newline.
    Blank,
    /// An ASCII letter.
    Alpha,
    /// Any character that is not blank.
    NonBlank,
}

pub open spec fn is_blank(c: char) -> bool {
    c == ' ' || c == '\t' || c == '\r' || c == '\n'
}

pub open spec fn is_alpha(c: char) -> bool {
    (97 <= c as u32 && c as u32 <= 122) || (65 <= c as u32 && c as u32 <= 90)
}

pub open spec fn in_class(k: CharClass, c: char) -> bool {
    match k {
        CharClass::Blank => is_blank(c),
        CharClass::Alpha => is_alpha(c),
        CharClass::NonBlank => !is_blank(c),
    }
}

/// The end of the maximal run of class `k` characters starting at `i`.
pub open spec fn scan(s: Seq<char>, i: int, k: CharClass) -> int
    decreases s.len() - i,
{
    if 0 <= i < s.len() && in_class(k, s[i]) {
        scan(s, i + 1, k)
    } else {
        i
    }
}

/// Whether `a` and the (lowercase or non-letter) literal character `l` are
/// equal up to ASCII case.
pub open spec fn char_ci_eq(a: char, l: char) -> bool {
    a == l || (97 <= l as u32 && l as u32 <= 122 && a as u32 + 32 == l as u32)
}

/// Whether the literal `lit` matches `s` at position `i`, character by
/// character up to ASCII case.
pub open spec fn ci_match_at(s: Seq<char>, i: int, lit: Seq<char>) -> bool {
    &&& 0 <= i
    &&& i + lit.len() <= s.len()
    &&& forall|k: int| 0 <= k < lit.len() ==> char_ci_eq(s[i + k], lit[k])
}

/// Whether `a` is the literal `lit` up to ASCII case.
pub open spec fn ci_eq(a: Seq<char>, lit: Seq<char>) -> bool {
    a.len() == lit.len() && ci_match_at(a, 0, lit)
}

pub(crate) fn in_class_exec(k: CharClass, c: char) -> (b: bool)
    ensures
        b == in_class(k, c),
{
    match k {
        CharClass::Blank => c == ' ' || c == '\t' || c == '\r' || c == '\n',
        CharClass::Alpha => {
            let u = c as u32;
            (97 <= u && u <= 122) || (65 <= u && u <= 90)
        },
        CharClass::NonBlank => !(c == ' ' || c == '\t' || c == '\r' || c == '\n'),
    }
}

/// The end of the maximal run of class `k` characters of `s` starting at `i`.
pub(crate) fn scan_str(s: &str, n: usize, i: usize, k: CharClass) -> (j: usize)
    requires
        n == s@.len(),
        i <= n,
    ensures
        j == scan(s@, i as int, k),
        i <= j <= n,
{
    let mut j: usize = i;
    loop
        invariant
            i <= j <= n,
            n == s@.len(),
            scan(s@, i as int, k) == scan(s@, j as int, k),
        decreases n - j,
    {
        if j == n {
            return j;
        }
        let c = s.get_char(j);
        if !in_class_exec(k, c) {
            return j;
        }
        j = j + 1;
    }
}

pub(crate) fn char_ci_eq_exec(a: char, l: char) -> (b: bool)
    ensures
        b == char_ci_eq(a, l),
{
    let au = a as u32;
    let lu = l as u32;
    au == lu || (97 <= lu && lu <= 122 && au + 32 == lu)
}

/// Whether the literal `lit` matches `s` at position `i`, up to ASCII case.
pub(crate) fn ci_match_str(s: &str, n: usize, i: usize, lit: &str) -> (b: bool)
    requires
        n == s@.len(),
        i <= n,
    ensures
        b == ci_match_at(s@, i as int, lit@),
{
    let m = lit.unicode_len();
    if m > n - i {
        return false;
    }
    let mut k: usize = 0;
    loop
        invariant
            0 <= k <= m,
            m == lit@.len(),
            n == s@.len(),
            i <= n,
            i + m <= n,
            forall|q: int| 0 <= q < k ==> char_ci_eq(s@[i + q], lit@[q]),
        decreases m - k,
    {
        if k == m {
            return true;
        }
        let a = s.get_char(i + k);
        let l = lit.get_char(k);
        if !char_ci_eq_exec(a, l) {
            return false;
        }
        k = k + 1;
    }
}

/// Whether the characters of `s` from `i` to `j` are the literal `lit`, up
/// to ASCII case.
pub(crate) fn ci_eq_range(s: &str, n: usize, i: usize, j: usize, lit: &str) -> (b: bool)
    requires
        n == s@.len(),
        i <= j <= n,
    ensures
        b == ci_eq(s@.subrange(i as int, j as int), lit@),
{
    let m = lit.unicode_len();
    if j - i != m {
        assert(s@.subrange(i as int, j as int).len() != lit@.len());
        return false;
    }
    let r = ci_match_str(s, n, i, lit);
    proof {
        let sub = s@.subrange(i as int, j as int);
        assert(forall|q: int| 0 <= q < m ==> sub[q] == s@[i + q]);
        assert(ci_match_at(s@, i as int, lit@) == ci_match_at(sub, 0, lit@)) by {
            if ci_match_at(s@, i as int, lit@) {
                assert(forall|q: int| 0 <= q < lit@.len() ==> char_ci_eq(sub[0 + q], lit@[q]));
            }
            if ci_match_at(sub, 0, lit@) {
                assert(forall|q: int| 0 <= q < lit@.len() ==> char_ci_eq(s@[i + q], lit@[q]));
            }
        }
    }
    r
}

/// Whether two strings hold the same characters.
pub(crate) fn str_eq(a: &str, b: &str) -> (r: bool)
    ensures
        r == (a@ == b@),
{
    let n = a.unicode_len();
    let m = b.unicode_len();
    if n != m {
        return false;
    }
    let mut i: usize = 0;
    loop
        invariant
            0 <= i <= n,
            n == a@.len(),
            n == b@.len(),
            forall|q: int| 0 <= q < i ==> a@[q] == b@[q],
        decreases n - i,
    {
        if i == n {
            proof {
                assert(a@ =~= b@);
            }
            return true;
        }
        if a.get_char(i) != b.get_char(i) {
            return false;
        }
        i = i + 1;
    }
}

/// Appends one character to a string.
///
/// Relies on `String::push`: the string afterwards holds its old characters
/// followed by the given one.
#[verifier::external_body]
pub(crate) fn push_char(s: &mut String, c: char)
    ensures
        final(s)@ == old(s)@.push(c),
{
    s.push(c)
}

} // verus!
