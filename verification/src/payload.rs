//! Payload preparation: what gets written to a characteristic is the input
//! line with leading and trailing ASCII whitespace removed, so that a line
//! read from standard input is sent without its newline.

use vstd::prelude::*;

verus! {

/// ASCII whitespace: space, tab, line feed, vertical tab, form feed,
/// carriage return.
pub open spec fn is_ascii_ws(b: u8) -> bool {
    b == 32 || b == 9 || b == 10 || b == 11 || b == 12 || b == 13
}

/// `s` without its leading ASCII whitespace.
pub open spec fn spec_trim_front(s: Seq<u8>) -> Seq<u8>
    decreases s.len(),
{
    if s.len() == 0 {
        s
    } else if is_ascii_ws(s[0]) {
        spec_trim_front(s.skip(1))
    } else {
        s
    }
}

/// `s` without its trailing ASCII whitespace.
pub open spec fn spec_trim_back(s: Seq<u8>) -> Seq<u8>
    decreases s.len(),
{
    if s.len() == 0 {
        s
    } else if is_ascii_ws(s[s.len() - 1]) {
        spec_trim_back(s.take(s.len() - 1))
    } else {
        s
    }
}

/// `s` without leading and trailing ASCII whitespace.
pub open spec fn spec_trim(s: Seq<u8>) -> Seq<u8> {
    spec_trim_back(spec_trim_front(s))
}

proof fn lemma_trim_front_skip(s: Seq<u8>, lo: int)
    requires
        0 <= lo <= s.len(),
        forall|k: int| 0 <= k < lo ==> is_ascii_ws(s[k]),
    ensures
        spec_trim_front(s) == spec_trim_front(s.skip(lo)),
    decreases lo,
{
    if lo > 0 {
        assert(is_ascii_ws(s[0]));
        assert(s.skip(1).skip(lo - 1) =~= s.skip(lo));
        lemma_trim_front_skip(s.skip(1), lo - 1);
    } else {
        assert(s.skip(0) =~= s);
    }
}

proof fn lemma_trim_back_take(s: Seq<u8>, hi: int)
    requires
        0 <= hi <= s.len(),
        forall|k: int| hi <= k < s.len() ==> is_ascii_ws(s[k]),
    ensures
        spec_trim_back(s) == spec_trim_back(s.take(hi)),
    decreases s.len() - hi,
{
    if hi < s.len() {
        assert(is_ascii_ws(s[s.len() - 1]));
        assert(s.take(s.len() - 1).take(hi) =~= s.take(hi));
        lemma_trim_back_take(s.take(s.len() - 1), hi);
    } else {
        assert(s.take(s.len() as int) =~= s);
    }
}

/// Whether a byte is ASCII whitespace, as `spec_trim` counts it.
pub fn ascii_ws(b: u8) -> (r: bool)
    ensures
        r == is_ascii_ws(b),
{
    b == 32 || b == 9 || b == 10 || b == 11 || b == 12 || b == 13
}

/// Strip leading and trailing ASCII whitespace from `v`; the payload that a
/// trimmed input line contributes to a write.
pub fn trim_ascii(v: &Vec<u8>) -> (r: Vec<u8>)
    ensures
        r@ == spec_trim(v@),
{
    let mut lo: usize = 0;
    while lo < v.len() && ascii_ws(v[lo])
        invariant
            0 <= lo <= v@.len(),
            forall|k: int| 0 <= k < lo ==> is_ascii_ws(v@[k]),
        decreases v@.len() - lo,
    {
        lo = lo + 1;
    }
    proof {
        lemma_trim_front_skip(v@, lo as int);
        if lo < v@.len() {
            assert(spec_trim_front(v@.skip(lo as int)) == v@.skip(lo as int));
        }
    }
    let mut hi: usize = v.len();
    while hi > lo && ascii_ws(v[hi - 1])
        invariant
            lo <= hi <= v@.len(),
            forall|k: int| hi <= k < v@.len() ==> is_ascii_ws(v@[k]),
        decreases hi,
    {
        hi = hi - 1;
    }
    proof {
        let mid = v@.skip(lo as int);
        lemma_trim_back_take(mid, hi - lo);
        if hi > lo {
            assert(mid.take(hi - lo)[hi - lo - 1] == v@[hi - 1]);
            assert(spec_trim_back(mid.take(hi - lo)) == mid.take(hi - lo));
        } else {
            assert(mid.take(0) =~= Seq::<u8>::empty());
            assert(spec_trim_back(mid.take(hi - lo)) =~= Seq::<u8>::empty());
        }
    }
    let mut out: Vec<u8> = Vec::new();
    let mut i: usize = lo;
    while i < hi
        invariant
            lo <= i <= hi <= v@.len(),
            out@ == v@.subrange(lo as int, i as int),
        decreases hi - i,
    {
        out.push(v[i]);
        assert(out@ =~= v@.subrange(lo as int, (i + 1) as int));
        i = i + 1;
    }
    proof {
        assert(v@.subrange(lo as int, hi as int) =~= v@.skip(lo as int).take(hi - lo));
    }
    out
}

} // verus!
