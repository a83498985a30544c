//! Membership and removal over lists of ids, compared by their text.

use vstd::prelude::*;

verus! {

/// `x` occurs in `v` (by text).
pub open spec fn seq_has(v: Seq<String>, x: Seq<char>) -> bool {
    exists|i: int| 0 <= i < v.len() && (#[trigger] v[i])@ == x
}

/// `v` with every occurrence of `x` (by text) removed, order kept.
pub open spec fn seq_without(v: Seq<String>, x: Seq<char>) -> Seq<String>
    decreases v.len(),
{
    if v.len() == 0 {
        Seq::empty()
    } else if v.last()@ == x {
        seq_without(v.drop_last(), x)
    } else {
        seq_without(v.drop_last(), x).push(v.last())
    }
}

pub fn contains_str(v: &Vec<String>, x: &String) -> (r: bool)
    ensures
        r == seq_has(v@, x@),
{
    let mut i: usize = 0;
    while i < v.len()
        invariant
            i <= v.len(),
            forall|j: int| 0 <= j < i ==> (#[trigger] v@[j])@ != x@,
        decreases v.len() - i,
    {
        if v[i] == *x {
            assert(v@[i as int]@ == x@);
            return true;
        }
        i = i + 1;
    }
    false
}

proof fn lemma_without_take(v: Seq<String>, x: Seq<char>, i: int)
    requires
        0 <= i < v.len(),
    ensures
        seq_without(v.take(i + 1), x) == if v[i]@ == x {
            seq_without(v.take(i), x)
        } else {
            seq_without(v.take(i), x).push(v[i])
        },
{
    assert(v.take(i + 1).drop_last() =~= v.take(i));
    assert(v.take(i + 1).last() == v[i]);
}

/// Removes every occurrence of `x` (by text), keeping the order of the rest.
pub fn remove_str(v: &mut Vec<String>, x: &String)
    ensures
        final(v)@ == seq_without(old(v)@, x@),
{
    let mut out: Vec<String> = Vec::new();
    let mut i: usize = 0;
    while i < v.len()
        invariant
            i <= v.len(),
            out@ == seq_without(v@.take(i as int), x@),
        decreases v.len() - i,
    {
        proof {
            lemma_without_take(v@, x@, i as int);
        }
        if v[i] != *x {
            out.push(v[i].clone());
        }
        i = i + 1;
    }
    proof {
        assert(v@.take(v@.len() as int) =~= v@);
    }
    *v = out;
}

/// Appends `x` unless it is already present (by text).
pub fn push_unique(v: &mut Vec<String>, x: &String)
    ensures
        seq_has(old(v)@, x@) ==> final(v)@ == old(v)@,
        !seq_has(old(v)@, x@) ==> final(v)@ == old(v)@.push(*x),
{
    if !contains_str(v, x) {
        v.push(x.clone());
    }
}

} // verus!
