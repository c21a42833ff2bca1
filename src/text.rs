//! Character-level helpers: moving from `str` to `Vec<char>`, and comparing
//! against literal text.
use vstd::prelude::*;

verus! {

/// The characters of `s`, in order.
pub fn chars_of(s: &str) -> (r: Vec<char>)
    ensures
        r@ == s@,
{
    let mut r: Vec<char> = Vec::new();
    for c in it: s.chars()
        invariant
            r@ == it.seq().take(it.index() as int),
    {
        r.push(c);
    }
    r
}

/// Whether `lit` stands in `v[lo..hi]` from `lo` on.
pub fn starts_with_at(v: &Vec<char>, lo: usize, hi: usize, lit: &str) -> (r: bool)
    requires
        lo <= hi <= v.len(),
    ensures
        r == (lit@.len() <= hi - lo && v@.subrange(lo as int, lo + lit@.len()) == lit@),
{
    let l = chars_of(lit);
    if l.len() > hi - lo {
        return false;
    }
    let mut i: usize = 0;
    while i < l.len()
        invariant
            i <= l.len(),
            l@ == lit@,
            lo + l.len() <= hi <= v.len(),
            v@.subrange(lo as int, lo + i) == l@.take(i as int),
        decreases l.len() - i,
    {
        if v[lo + i] != l[i] {
            assert(v@.subrange(lo as int, lo + l.len())[i as int] != l@[i as int]);
            return false;
        }
        assert(v@.subrange(lo as int, lo + i + 1) =~= v@.subrange(lo as int, lo + i).push(v@[lo + i]));
        assert(l@.take(i + 1) =~= l@.take(i as int).push(l@[i as int]));
        i += 1;
    }
    assert(l@.take(l.len() as int) =~= l@);
    true
}

/// Whether `v[lo..hi]` is exactly `lit`.
pub fn equals_at(v: &Vec<char>, lo: usize, hi: usize, lit: &str) -> (r: bool)
    requires
        lo <= hi <= v.len(),
    ensures
        r == (v@.subrange(lo as int, hi as int) == lit@),
{
    let n = chars_of(lit).len();
    let r = n == hi - lo && starts_with_at(v, lo, hi, lit);
    proof {
        if v@.subrange(lo as int, hi as int) == lit@ {
            assert(v@.subrange(lo as int, lo + lit@.len()) =~= v@.subrange(lo as int, hi as int));
        }
    }
    r
}

} // verus!
