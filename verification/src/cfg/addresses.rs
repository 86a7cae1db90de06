//! Sets of code addresses, held as ascending lists.

use vstd::prelude::*;

verus! {

/// Strictly ascending from one element to the next.
pub open spec fn ascending(s: Seq<u32>) -> bool {
    forall|i: int, j: int| 0 <= i < j < s.len() ==> s[i] < s[j]
}

/// Two ascending lists with the same elements are the same list.
pub proof fn ascending_is_unique(a: Seq<u32>, b: Seq<u32>)
    requires
        ascending(a),
        ascending(b),
        a.to_set() == b.to_set(),
    ensures
        a == b,
    decreases a.len(),
{
    if a.len() == 0 {
        if b.len() > 0 {
            assert(b.to_set().contains(b[0]));
        }
    } else {
        let la = a.len() - 1;
        assert(a.to_set().contains(a[la]));
        let lb = b.len() - 1;
        assert(b.to_set().contains(b[lb]));
        let a0 = a.drop_last();
        let b0 = b.drop_last();
        assert forall|x: u32| a0.to_set().contains(x) <==> b0.to_set().contains(x) by {
            if a0.contains(x) {
                assert(a.to_set().contains(x));
                let q = choose|q: int| 0 <= q < b.len() && b[q] == x;
                assert(b0[q] == x);
            }
            if b0.contains(x) {
                assert(b.to_set().contains(x));
                let p = choose|p: int| 0 <= p < a.len() && a[p] == x;
                assert(a0[p] == x);
            }
        }
        assert(a0.to_set() =~= b0.to_set());
        ascending_is_unique(a0, b0);
        assert(b =~= b0.push(b[lb]));
    }
}

/// The elements of a finite set of addresses in ascending order.
pub open spec fn sorted_addresses(s: Set<u32>) -> Seq<u32> {
    choose|v: Seq<u32>| ascending(v) && v.to_set() == s
}

/// An ascending list is the ascending order of its own elements.
pub proof fn sorted_addresses_of(v: Seq<u32>)
    requires
        ascending(v),
    ensures
        sorted_addresses(v.to_set()) == v,
{
    ascending_is_unique(sorted_addresses(v.to_set()), v);
}

/// Position of the first element that is not below `x`.
pub fn lower_bound(v: &Vec<u32>, x: u32) -> (p: usize)
    requires
        ascending(v@),
    ensures
        p <= v@.len(),
        forall|i: int| 0 <= i < p ==> v@[i] < x,
        forall|i: int| p <= i < v@.len() ==> v@[i] >= x,
{
    let mut low: usize = 0;
    let mut high: usize = v.len();
    while low < high
        invariant
            ascending(v@),
            low <= high <= v@.len(),
            forall|i: int| 0 <= i < low ==> v@[i] < x,
            forall|i: int| high <= i < v@.len() ==> v@[i] >= x,
        decreases high - low,
    {
        let mid = low + (high - low) / 2;
        if v[mid] < x {
            assert forall|i: int| 0 <= i < mid + 1 implies v@[i] < x by {}
            low = mid + 1;
        } else {
            assert forall|i: int| mid <= i < v@.len() implies v@[i] >= x by {}
            high = mid;
        }
    }
    low
}

/// Adds `x` to the set that the ascending list `v` holds.
pub fn insert_address(v: &mut Vec<u32>, x: u32)
    requires
        ascending(old(v)@),
    ensures
        ascending(final(v)@),
        final(v)@.to_set() == old(v)@.to_set().insert(x),
{
    let ghost before = v@;
    let p = lower_bound(v, x);
    if p >= v.len() || v[p] != x {
        v.insert(p, x);
        let ghost after = v@;
        assert forall|i: int, j: int| 0 <= i < j < after.len() implies after[i] < after[j] by {}
        assert forall|a: u32| after.to_set().contains(a) <==> before.to_set().insert(x).contains(
            a,
        ) by {
            if after.contains(a) {
                let i = choose|i: int| 0 <= i < after.len() && after[i] == a;
                if i != p {
                    assert(before[if i < p { i } else { i - 1 }] == a);
                }
            }
            if before.contains(a) {
                let bi = choose|bi: int| 0 <= bi < before.len() && before[bi] == a;
                let i = if bi < p { bi } else { bi + 1 };
                assert(after[i] == a);
            }
            if a == x {
                assert(after[p as int] == a);
            }
        }
    }
}

/// Position of `x` in the ascending list `v`, if it is there.
pub fn find_address(v: &Vec<u32>, x: u32) -> (r: Option<usize>)
    requires
        ascending(v@),
    ensures
        match r {
            Some(i) => i < v@.len() && v@[i as int] == x,
            None => !v@.contains(x),
        },
{
    let p = lower_bound(v, x);
    if p < v.len() && v[p] == x {
        Some(p)
    } else {
        assert forall|i: int| 0 <= i < v@.len() implies v@[i] != x by {}
        None
    }
}

} // verus!
