//! Strictly increasing sequences of numbers, used as sets without duplicates.

use vstd::prelude::*;

verus! {

/// Every element is smaller than every later one.
pub open spec fn strictly_increasing(s: Seq<u32>) -> bool {
    forall|i: int, j: int| 0 <= i < j < s.len() ==> s[i] < s[j]
}

/// `s` holds exactly the numbers that `items` holds.
pub open spec fn same_members(s: Seq<u32>, items: Seq<u32>) -> bool {
    forall|x: u32| s.contains(x) <==> items.contains(x)
}

/// `s` is `items` sorted, with each number kept once.
pub open spec fn is_sorted_union(s: Seq<u32>, items: Seq<u32>) -> bool {
    strictly_increasing(s) && same_members(s, items)
}

/// Two strictly increasing sequences with the same members are the same
/// sequence: sorting and removing duplicates has one result.
pub proof fn lemma_sorted_union_unique(a: Seq<u32>, b: Seq<u32>)
    requires
        strictly_increasing(a),
        strictly_increasing(b),
        forall|x: u32| a.contains(x) <==> b.contains(x),
    ensures
        a == b,
    decreases a.len(),
{
    if a.len() == 0 {
        if b.len() > 0 {
            assert(b.contains(b[0]));
        }
    } else {
        assert(a.contains(a.last()));
        assert(b.contains(a.last()));
        assert(b.len() > 0);
        assert(b.contains(b.last()));
        assert(a.contains(b.last()));
        assert(a.last() == b.last());
        let a0 = a.drop_last();
        let b0 = b.drop_last();
        assert forall|x: u32| a0.contains(x) <==> b0.contains(x) by {
            if a0.contains(x) {
                let i = choose|i: int| 0 <= i < a0.len() && a0[i] == x;
                assert(a[i] == x);
                assert(a.contains(x));
                let j = choose|j: int| 0 <= j < b.len() && b[j] == x;
                assert(x < a.last());
                assert(j < b.len() - 1);
                assert(b0[j] == x);
            }
            if b0.contains(x) {
                let i = choose|i: int| 0 <= i < b0.len() && b0[i] == x;
                assert(b[i] == x);
                assert(b.contains(x));
                let j = choose|j: int| 0 <= j < a.len() && a[j] == x;
                assert(x < b.last());
                assert(j < a.len() - 1);
                assert(a0[j] == x);
            }
        }
        lemma_sorted_union_unique(a0, b0);
        assert(a =~= a0.push(a.last()));
        assert(b =~= b0.push(b.last()));
    }
}

/// Puts `x` at its place in a strictly increasing vector, unless it is
/// already there.
pub fn insert_sorted(v: &mut Vec<u32>, x: u32)
    requires
        strictly_increasing(old(v)@),
    ensures
        strictly_increasing(final(v)@),
        forall|y: u32| final(v)@.contains(y) <==> (old(v)@.contains(y) || y == x),
{
    let ghost before = v@;
    let mut pos: usize = 0;
    while pos < v.len() && v[pos] < x
        invariant
            v@ == before,
            pos <= v.len(),
            forall|k: int| 0 <= k < pos ==> v@[k] < x,
        decreases v.len() - pos,
    {
        pos += 1;
    }
    if pos < v.len() && v[pos] == x {
        return ;
    }
    v.insert(pos, x);
    proof {
        let after = v@;
        assert forall|y: u32| after.contains(y) <==> (before.contains(y) || y == x) by {
            if before.contains(y) {
                let i = choose|i: int| 0 <= i < before.len() && before[i] == y;
                if i < pos {
                    assert(after[i] == y);
                } else {
                    assert(after[i + 1] == y);
                }
            }
            if y == x {
                assert(after[pos as int] == y);
            }
        }
    }
}

/// Sorts `items` and keeps each number once.
pub fn sorted_union(items: &Vec<u32>) -> (out: Vec<u32>)
    ensures
        is_sorted_union(out@, items@),
{
    let mut out: Vec<u32> = Vec::new();
    let mut i: usize = 0;
    while i < items.len()
        invariant
            i <= items.len(),
            strictly_increasing(out@),
            forall|x: u32| out@.contains(x) <==> items@.take(i as int).contains(x),
        decreases items.len() - i,
    {
        insert_sorted(&mut out, items[i]);
        proof {
            let next = items@.take(i as int + 1);
            assert forall|x: u32| out@.contains(x) <==> next.contains(x) by {
                if x == items@[i as int] {
                    assert(next[i as int] == x);
                }
            }
        }
        i += 1;
    }
    assert(items@.take(items.len() as int) =~= items@);
    out
}

} // verus!
