//! Byte-string utilities: equality, substring and suffix search,
//! each also in an ASCII case-folded form.

use vstd::prelude::*;
use vstd::string::StringSliceAdditionalSpecFns;

verus! {

/// An ASCII byte folded to lower case; other bytes unchanged.
pub open spec fn ascii_lower(c: u8) -> u8 {
    if 65 <= c <= 90 {
        (c + 32) as u8
    } else {
        c
    }
}

/// A byte string folded to ASCII lower case.
pub open spec fn lower_bytes(s: Seq<u8>) -> Seq<u8> {
    s.map(|i: int, c: u8| ascii_lower(c))
}

/// `pat` occurs in `s` at position `i`.
pub open spec fn match_at(s: Seq<u8>, pat: Seq<u8>, i: int) -> bool {
    0 <= i && i + pat.len() <= s.len() && s.subrange(i, i + pat.len()) == pat
}

/// `pat` occurs somewhere in `s`.
pub open spec fn contains_bytes(s: Seq<u8>, pat: Seq<u8>) -> bool {
    exists|i: int| match_at(s, pat, i)
}

/// `s` ends in `pat`.
pub open spec fn ends_with_bytes(s: Seq<u8>, pat: Seq<u8>) -> bool {
    pat.len() <= s.len() && s.subrange(s.len() - pat.len(), s.len() as int) == pat
}

pub fn lower_u8(c: u8) -> (r: u8)
    ensures
        r == ascii_lower(c),
{
    if 65 <= c && c <= 90 {
        c + 32
    } else {
        c
    }
}

pub fn bytes_eq(a: &[u8], b: &[u8]) -> (r: bool)
    ensures
        r == (a@ == b@),
{
    if a.len() != b.len() {
        return false;
    }
    let mut i: usize = 0;
    while i < a.len()
        invariant
            a@.len() == b@.len(),
            0 <= i <= a@.len(),
            forall|t: int| 0 <= t < i ==> a@[t] == b@[t],
        decreases a@.len() - i,
    {
        if a[i] != b[i] {
            return false;
        }
        i = i + 1;
    }
    proof {
        assert(a@ =~= b@);
    }
    true
}

pub fn match_lower_at(hay: &[u8], pat: &[u8], at: usize) -> (r: bool)
    requires
        at + pat@.len() <= hay@.len(),
    ensures
        r == match_at(lower_bytes(hay@), pat@, at as int),
{
    let hay_len = hay.len();
    let mut j: usize = 0;
    while j < pat.len()
        invariant
            at + pat@.len() <= hay@.len(),
            hay_len == hay@.len(),
            0 <= j <= pat@.len(),
            forall|t: int| 0 <= t < j ==> lower_bytes(hay@)[at + t] == pat@[t],
        decreases pat@.len() - j,
    {
        if lower_u8(hay[at + j]) != pat[j] {
            proof {
                assert(lower_bytes(hay@)[at + j] != pat@[j as int]);
                assert(forall|sub: Seq<u8>|
                    sub == lower_bytes(hay@).subrange(
                        at as int,
                        at + pat@.len(),
                    ) ==> sub[j as int] == lower_bytes(hay@)[at + j]);
            }
            return false;
        }
        j = j + 1;
    }
    proof {
        assert(lower_bytes(hay@).subrange(at as int, at + pat@.len()) =~= pat@);
    }
    true
}

pub fn contains_lower(hay: &[u8], pat: &[u8]) -> (r: bool)
    ensures
        r == contains_bytes(lower_bytes(hay@), pat@),
{
    if pat.len() > hay.len() {
        return false;
    }
    if pat.len() == 0 {
        proof {
            assert(lower_bytes(hay@).subrange(0, 0) =~= pat@);
            assert(match_at(lower_bytes(hay@), pat@, 0));
        }
        return true;
    }
    let mut i: usize = 0;
    while i <= hay.len() - pat.len()
        invariant
            1 <= pat@.len() <= hay@.len(),
            0 <= i <= hay@.len() - pat@.len() + 1,
            forall|t: int| 0 <= t < i ==> !match_at(lower_bytes(hay@), pat@, t),
        decreases hay@.len() - pat@.len() + 1 - i,
    {
        if match_lower_at(hay, pat, i) {
            return true;
        }
        i = i + 1;
    }
    false
}

pub fn ends_with_lower(hay: &[u8], pat: &[u8]) -> (r: bool)
    ensures
        r == ends_with_bytes(lower_bytes(hay@), pat@),
{
    if pat.len() > hay.len() {
        return false;
    }
    let r = match_lower_at(hay, pat, hay.len() - pat.len());
    proof {
        if r {
            assert(lower_bytes(hay@).subrange(
                hay@.len() - pat@.len(),
                hay@.len() as int,
            ) == pat@);
        }
    }
    r
}


/// Case-folded equality of a byte string with a pattern.
pub fn eq_lower(a: &[u8], pat: &[u8]) -> (r: bool)
    ensures
        r == (lower_bytes(a@) == pat@),
{
    if a.len() != pat.len() {
        proof {
            assert(lower_bytes(a@).len() == a@.len());
        }
        return false;
    }
    let m = match_lower_at(a, pat, 0);
    proof {
        assert(lower_bytes(a@).subrange(0, pat@.len() as int) =~= lower_bytes(a@));
    }
    m
}

pub fn str_bytes_eq(a: &str, b: &str) -> (r: bool)
    ensures
        r == (a.spec_bytes() == b.spec_bytes()),
{
    bytes_eq(a.as_bytes(), b.as_bytes())
}

} // verus!
