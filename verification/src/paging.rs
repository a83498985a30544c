//! Paginated listing over an index: from a start index, the positions of the first `limit`
//! records that exist (an id whose record is gone is skipped, not counted).

use vstd::prelude::*;

verus! {

/// The positions in `[from, to)` whose record exists, in order.
pub open spec fn spec_present_between(present: Seq<bool>, from: int, to: int) -> Seq<u64>
    decreases to - from,
{
    if to <= from {
        Seq::empty()
    } else {
        let before = spec_present_between(present, from, to - 1);
        if present[to - 1] {
            before.push((to - 1) as u64)
        } else {
            before
        }
    }
}

/// A page: the first `limit` existing positions from `from` on.
pub open spec fn spec_page(present: Seq<bool>, from: int, limit: int) -> Seq<u64> {
    let all = spec_present_between(present, from, present.len() as int);
    if all.len() <= limit {
        all
    } else {
        all.take(limit)
    }
}

proof fn lemma_present_between_prefix(present: Seq<bool>, from: int, mid: int, to: int)
    requires
        from <= mid <= to,
    ensures
        spec_present_between(present, from, mid).len() <= spec_present_between(present, from, to).len(),
        spec_present_between(present, from, to).take(spec_present_between(present, from, mid).len() as int)
            == spec_present_between(present, from, mid),
    decreases to - mid,
{
    if mid < to {
        lemma_present_between_prefix(present, from, mid, to - 1);
        let a = spec_present_between(present, from, mid);
        let b = spec_present_between(present, from, to - 1);
        let c = spec_present_between(present, from, to);
        if present[to - 1] {
            assert(c.take(a.len() as int) =~= b.take(a.len() as int));
        }
    } else {
        let a = spec_present_between(present, from, mid);
        assert(a.take(a.len() as int) =~= a);
    }
}

/// The positions of one page of a listing: walking from `from_index`, each existing record is
/// taken until `limit` are taken or the index ends.
pub fn collect_paginated(present: &Vec<bool>, from_index: u64, limit: u64) -> (r: Vec<u64>)
    ensures
        r@ == spec_page(present@, from_index as int, limit as int),
{
    let total: usize = present.len();
    let mut out: Vec<u64> = Vec::new();
    if from_index >= total as u64 {
        proof {
            assert(spec_present_between(present@, from_index as int, present@.len() as int) =~= Seq::<
                u64,
            >::empty());
        }
        return out;
    }
    let mut i: usize = from_index as usize;
    while i < total && (out.len() as u64) < limit
        invariant
            total == present@.len(),
            from_index <= i <= total,
            out@.len() <= limit,
            out@ == spec_present_between(present@, from_index as int, i as int),
        decreases total - i,
    {
        if present[i] {
            out.push(i as u64);
        }
        i = i + 1;
    }
    proof {
        lemma_present_between_prefix(present@, from_index as int, i as int, present@.len() as int);
        let all = spec_present_between(present@, from_index as int, present@.len() as int);
        if i == total {
            assert(out@ == all);
        } else {
            assert(out@.len() == limit);
            assert(out@ =~= all.take(limit as int));
        }
    }
    out
}

} // verus!
