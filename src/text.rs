use vstd::prelude::*;

verus! {

/// `p` occurs in `l` starting at position `i`.
pub open spec fn occurs_at_spec(l: Seq<char>, p: Seq<char>, i: int) -> bool {
    0 <= i && i + p.len() <= l.len() && l.subrange(i, i + p.len()) == p
}

/// `p` is a contiguous part of `l` (the empty sequence is part of every one).
pub open spec fn contains_spec(l: Seq<char>, p: Seq<char>) -> bool {
    exists|i: int| occurs_at_spec(l, p, i)
}

/// The characters of a string, in order.
pub fn chars_of(s: &str) -> (r: Vec<char>)
    ensures
        r@ == s@,
{
    broadcast use vstd::string::axiom_spec_iter;
    let mut out: Vec<char> = Vec::new();
    for c in it: s.chars()
        invariant
            it.seq() == s@,
            out@ == it.seq().take(it.index() as int),
    {
        out.push(c);
    }
    assert(out@ =~= s@);
    out
}

/// Whether `p` occurs in `l` at position `i`.
pub fn occurs_at(l: &Vec<char>, p: &Vec<char>, i: usize) -> (r: bool)
    ensures
        r == occurs_at_spec(l@, p@, i as int),
{
    if i > l.len() || p.len() > l.len() - i {
        return false;
    }
    let mut k: usize = 0;
    while k < p.len()
        invariant
            i + p.len() <= l.len(),
            k <= p.len(),
            forall|j: int| 0 <= j < k ==> l@[i + j] == p@[j],
        decreases p.len() - k,
    {
        if l[i + k] != p[k] {
            assert(l@.subrange(i as int, i + p.len())[k as int] != p@[k as int]);
            return false;
        }
        k = k + 1;
    }
    assert(l@.subrange(i as int, i + p.len()) =~= p@);
    true
}

/// Whether `p` occurs anywhere in `l`.
pub fn contains_seq(l: &Vec<char>, p: &Vec<char>) -> (r: bool)
    ensures
        r == contains_spec(l@, p@),
{
    if p.len() > l.len() {
        return false;
    }
    let last: usize = l.len() - p.len();
    let mut i: usize = 0;
    while i <= last
        invariant
            last == l.len() - p.len(),
            forall|j: int| 0 <= j < i ==> !occurs_at_spec(l@, p@, j),
        decreases last + 1 - i,
    {
        if occurs_at(l, p, i) {
            return true;
        }
        if i == last {
            return false;
        }
        i = i + 1;
    }
    false
}

} // verus!
