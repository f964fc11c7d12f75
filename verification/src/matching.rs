//! Substring matching over strings, used by the name filter.

use vstd::prelude::*;

verus! {

/// True when `pat` occurs in `hay` starting at character position `i`.
pub open spec fn matches_at(hay: Seq<char>, pat: Seq<char>, i: int) -> bool {
    &&& 0 <= i
    &&& i + pat.len() <= hay.len()
    &&& hay.subrange(i, i + pat.len()) == pat
}

/// True when `pat` occurs somewhere in `hay` as a contiguous run of
/// characters. The empty pattern occurs in every string.
pub open spec fn contains_sub(hay: Seq<char>, pat: Seq<char>) -> bool {
    exists|i: int| matches_at(hay, pat, i)
}

/// Decide whether `pat` occurs in `hay` as a contiguous substring.
pub fn str_contains_sub(hay: &str, pat: &str) -> (b: bool)
    ensures
        b == contains_sub(hay@, pat@),
{
    let hn = hay.unicode_len();
    let pn = pat.unicode_len();
    if pn > hn {
        assert(forall|i: int| !matches_at(hay@, pat@, i));
        return false;
    }
    let mut i: usize = 0;
    while i <= hn - pn
        invariant
            pn <= hn,
            hn == hay@.len(),
            pn == pat@.len(),
            i <= hn - pn + 1,
            forall|k: int| 0 <= k < i ==> !matches_at(hay@, pat@, k),
        decreases hn - pn + 1 - i,
    {
        let mut j: usize = 0;
        let mut ok: bool = true;
        while ok && j < pn
            invariant
                pn <= hn,
                hn == hay@.len(),
                pn == pat@.len(),
                i + pn <= hn,
                j <= pn,
                ok ==> forall|t: int| 0 <= t < j ==> hay@[i + t] == pat@[t],
                !ok ==> exists|t: int| 0 <= t < pat@.len() && hay@[i + t] != pat@[t],
            decreases pn - j, (if ok {
                1int
            } else {
                0int
            }),
        {
            if hay.get_char(i + j) == pat.get_char(j) {
                j = j + 1;
            } else {
                ok = false;
            }
        }
        if ok {
            assert(hay@.subrange(i as int, i + pn) =~= pat@);
            assert(matches_at(hay@, pat@, i as int));
            return true;
        }
        assert(!matches_at(hay@, pat@, i as int)) by {
            if matches_at(hay@, pat@, i as int) {
                let t = choose|t: int| 0 <= t < pat@.len() && hay@[i + t] != pat@[t];
                assert(hay@.subrange(i as int, i + pn)[t] == hay@[i + t]);
            }
        }
        i = i + 1;
    }
    assert(forall|k: int| matches_at(hay@, pat@, k) ==> 0 <= k <= hn - pn);
    false
}

} // verus!
