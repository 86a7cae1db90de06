//! The key-to-offset table of a switch payload.

use vstd::prelude::*;

verus! {

/// Keys strictly ascending from one entry to the next.
pub open spec fn strictly_ascending(s: Seq<(i32, i32)>) -> bool {
    forall|i: int, j: int| 0 <= i < j < s.len() ==> s[i].0 < s[j].0
}

/// The map that results from inserting the entries of `s` one after the
/// other, a later entry replacing an earlier one with the same key.
pub open spec fn entries_map(s: Seq<(i32, i32)>) -> Map<i32, i32>
    decreases s.len(),
{
    if s.len() == 0 {
        Map::empty()
    } else {
        entries_map(s.drop_last()).insert(s.last().0, s.last().1)
    }
}

/// The entry at position `i` of `s` has the key `k`.
pub open spec fn key_at(s: Seq<(i32, i32)>, i: int, k: i32) -> bool {
    0 <= i < s.len() && s[i].0 == k
}

/// Some entry of `s` has the key `k`.
pub open spec fn has_key(s: Seq<(i32, i32)>, k: i32) -> bool {
    exists|i: int| key_at(s, i, k)
}

/// A key of the map is a key of some entry.
pub proof fn entries_map_keys(s: Seq<(i32, i32)>)
    ensures
        forall|k: i32| #[trigger] entries_map(s).contains_key(k) <==> has_key(s, k),
    decreases s.len(),
{
    if s.len() > 0 {
        let init = s.drop_last();
        entries_map_keys(init);
        assert forall|k: i32| #[trigger] entries_map(s).contains_key(k) <==> has_key(s, k) by {
            if entries_map(s).contains_key(k) {
                if k == s.last().0 {
                    assert(key_at(s, s.len() - 1, k));
                } else {
                    assert(entries_map(init).contains_key(k));
                    let i = choose|i: int| key_at(init, i, k);
                    assert(key_at(s, i, k));
                }
            }
            if has_key(s, k) {
                let i = choose|i: int| key_at(s, i, k);
                if i < s.len() - 1 {
                    assert(key_at(init, i, k));
                    assert(entries_map(init).contains_key(k));
                }
            }
        }
    }
}

/// With ascending keys, every entry is found in the map under its key.
pub proof fn entries_map_values(s: Seq<(i32, i32)>)
    requires
        strictly_ascending(s),
    ensures
        forall|i: int|
            0 <= i < s.len() ==> entries_map(s).contains_key(#[trigger] s[i].0) && entries_map(
                s,
            )[s[i].0] == s[i].1,
    decreases s.len(),
{
    if s.len() > 0 {
        let init = s.drop_last();
        entries_map_values(init);
        assert forall|i: int| 0 <= i < s.len() implies entries_map(s).contains_key(
            #[trigger] s[i].0,
        ) && entries_map(s)[s[i].0] == s[i].1 by {
            if i < s.len() - 1 {
                assert(init[i] == s[i]);
                assert(s[i].0 < s[s.len() - 1].0);
            }
        }
    }
}

/// Two ascending entry lists with the same keys and the same value under
/// each key are the same list.
proof fn ascending_same_content(a: Seq<(i32, i32)>, b: Seq<(i32, i32)>)
    requires
        strictly_ascending(a),
        strictly_ascending(b),
        forall|i: int| 0 <= i < a.len() ==> #[trigger] b.contains(a[i]),
        forall|j: int| 0 <= j < b.len() ==> #[trigger] a.contains(b[j]),
    ensures
        a == b,
    decreases a.len(),
{
    if a.len() == 0 {
        if b.len() > 0 {
            assert(a.contains(b[0]));
        }
        assert(a =~= b);
    } else {
        let la = a.len() - 1;
        assert(b.contains(a[la]));
        let j = choose|j: int| 0 <= j < b.len() && b[j] == a[la];
        let lb = b.len() - 1;
        assert(a.contains(b[lb]));
        let i = choose|i: int| 0 <= i < a.len() && a[i] == b[lb];
        assert(a[la] == b[lb]) by {
            if i < la {
                assert(a[i].0 < a[la].0);
            }
            if j < lb {
                assert(b[j].0 < b[lb].0);
            }
        }
        let a0 = a.drop_last();
        let b0 = b.drop_last();
        assert forall|x: int| 0 <= x < a0.len() implies #[trigger] b0.contains(a0[x]) by {
            assert(b.contains(a[x]));
            let y = choose|y: int| 0 <= y < b.len() && b[y] == a[x];
            assert(a[x].0 < a[la].0);
            assert(y < lb);
            assert(b0[y] == a0[x]);
        }
        assert forall|y: int| 0 <= y < b0.len() implies #[trigger] a0.contains(b0[y]) by {
            assert(a.contains(b[y]));
            let x = choose|x: int| 0 <= x < a.len() && a[x] == b[y];
            assert(b[y].0 < b[lb].0);
            assert(x < la);
            assert(a0[x] == b0[y]);
        }
        ascending_same_content(a0, b0);
        assert(a =~= a0.push(a[la]));
        assert(b =~= b0.push(b[lb]));
    }
}

/// Two ascending entry lists that stand for the same map are the same list:
/// the map fixes the order of its entries.
pub proof fn ascending_entries_are_unique(a: Seq<(i32, i32)>, b: Seq<(i32, i32)>)
    requires
        strictly_ascending(a),
        strictly_ascending(b),
        entries_map(a) == entries_map(b),
    ensures
        a == b,
{
    entries_map_keys(a);
    entries_map_keys(b);
    entries_map_values(a);
    entries_map_values(b);
    assert forall|i: int| 0 <= i < a.len() implies #[trigger] b.contains(a[i]) by {
        assert(entries_map(a).contains_key(a[i].0));
        assert(entries_map(b).contains_key(a[i].0));
        let j = choose|j: int| key_at(b, j, a[i].0);
        assert(entries_map(b)[b[j].0] == b[j].1);
        assert(b[j] == a[i]);
    }
    assert forall|j: int| 0 <= j < b.len() implies #[trigger] a.contains(b[j]) by {
        assert(entries_map(b).contains_key(b[j].0));
        assert(entries_map(a).contains_key(b[j].0));
        let i = choose|i: int| key_at(a, i, b[j].0);
        assert(entries_map(a)[a[i].0] == a[i].1);
        assert(a[i] == b[j]);
    }
    ascending_same_content(a, b);
}

/// Putting the entry `(key, value)` at position `p` of an ascending list, in
/// place of the entry with that key or between its neighbours, keeps the
/// list ascending and inserts the entry into its map.
proof fn ascending_insert(before: Seq<(i32, i32)>, after: Seq<(i32, i32)>, p: int, key: i32, value: i32)
    requires
        strictly_ascending(before),
        0 <= p <= before.len(),
        forall|i: int| 0 <= i < p ==> (#[trigger] before[i]).0 < key,
        forall|i: int| p <= i < before.len() ==> (#[trigger] before[i]).0 >= key,
        (p < before.len() && before[p].0 == key && after == before.update(p, (key, value)))
            || ((p == before.len() || before[p].0 != key) && after == before.insert(p, (key, value))),
    ensures
        strictly_ascending(after),
        entries_map(after) == entries_map(before).insert(key, value),
{
    let replaced = after.len() == before.len();
    assert(after[p] == (key, value));
    assert forall|i: int| 0 <= i < after.len() && i != p implies (#[trigger] after[i]) == before[if replaced
        || i < p { i } else { i - 1 }] by {}
    assert forall|i: int, j: int| 0 <= i < j < after.len() implies after[i].0 < after[j].0 by {
        let bi = if replaced || i < p { i } else { i - 1 };
        let bj = if replaced || j < p { j } else { j - 1 };
        if i != p && j != p {
            assert(after[i] == before[bi]);
            assert(after[j] == before[bj]);
            assert(before[bi].0 < before[bj].0);
        } else if i == p {
            assert(after[j] == before[bj]);
            assert(before[bj].0 >= key);
            if replaced {
                assert(before[p].0 < before[bj].0);
            } else {
                assert(before[bj].0 != key) by {
                    if bj > p {
                        assert(before[p].0 < before[bj].0);
                    }
                }
            }
        } else {
            assert(after[i] == before[bi]);
            assert(before[bi].0 < key);
        }
    }
    entries_map_keys(before);
    entries_map_keys(after);
    entries_map_values(before);
    entries_map_values(after);
    let target = entries_map(before).insert(key, value);
    assert forall|k: i32| entries_map(after).contains_key(k) implies target.contains_key(k) && target[k]
        == #[trigger] entries_map(after)[k] by {
        let i = choose|i: int| key_at(after, i, k);
        assert(entries_map(after)[after[i].0] == after[i].1);
        if i != p {
            let bi = if replaced || i < p { i } else { i - 1 };
            assert(before[bi] == after[i]);
            assert(key_at(before, bi, k));
            assert(entries_map(before)[before[bi].0] == before[bi].1);
            assert(after[i].0 != after[p].0) by {
                if i < p {
                    assert(after[i].0 < after[p].0);
                } else {
                    assert(after[p].0 < after[i].0);
                }
            }
        }
    }
    assert forall|k: i32| target.contains_key(k) implies #[trigger] entries_map(after).contains_key(
        k,
    ) by {
        if k == key {
            assert(key_at(after, p, k));
        } else {
            assert(entries_map(before).contains_key(k));
            let bi = choose|bi: int| key_at(before, bi, k);
            let i = if replaced || bi < p { bi } else { bi + 1 };
            assert(after[i] == before[bi]);
            assert(key_at(after, i, k));
        }
    }
    assert(entries_map(after) =~= target);
}

/// The cases of a switch: each key with the branch offset taken for it, held
/// in ascending order of the keys.
#[derive(Clone, Debug, PartialEq, Eq)]
pub struct SwitchTable {
    pub entries: Vec<(i32, i32)>,
}

impl View for SwitchTable {
    type V = Map<i32, i32>;

    /// The table as a map from case key to branch offset.
    open spec fn view(&self) -> Map<i32, i32> {
        entries_map(self.entries@)
    }
}

impl SwitchTable {
    /// The entries are in strictly ascending order of their keys.
    pub open spec fn wf(&self) -> bool {
        strictly_ascending(self.entries@)
    }

    /// The table without any case.
    pub fn new() -> (t: SwitchTable)
        ensures
            t.wf(),
            t@ == Map::<i32, i32>::empty(),
            t.entries@.len() == 0,
    {
        SwitchTable { entries: Vec::new() }
    }

    /// Number of cases.
    pub fn len(&self) -> (n: usize)
        ensures
            n == self.entries@.len(),
    {
        self.entries.len()
    }

    /// Sets the branch offset of the case `key`, adding the case if the table
    /// does not have it yet.
    pub fn insert(&mut self, key: i32, value: i32)
        requires
            old(self).wf(),
        ensures
            final(self).wf(),
            final(self)@ == old(self)@.insert(key, value),
    {
        let ghost before = self.entries@;
        let mut p: usize = self.entries.len();
        while p > 0 && self.entries[p - 1].0 >= key
            invariant
                p <= self.entries.len(),
                self.entries@ == before,
                forall|i: int| p <= i < before.len() ==> (#[trigger] before[i]).0 >= key,
            decreases p,
        {
            p -= 1;
        }
        assert forall|i: int| 0 <= i < p implies (#[trigger] before[i]).0 < key by {
            assert(before[p - 1].0 < key);
            if i < p - 1 {
                assert(before[i].0 < before[p - 1].0);
            }
        }
        if p < self.entries.len() && self.entries[p].0 == key {
            self.entries.set(p, (key, value));
        } else {
            self.entries.insert(p, (key, value));
        }
        proof {
            ascending_insert(before, self.entries@, p as int, key, value);
        }
    }

    /// The branch offset of the case `key`, if the table has that case.
    pub fn get(&self, key: i32) -> (r: Option<i32>)
        requires
            self.wf(),
        ensures
            r == if self@.contains_key(key) { Some(self@[key]) } else { None::<i32> },
    {
        let mut i: usize = 0;
        while i < self.entries.len()
            invariant
                self.wf(),
                i <= self.entries.len(),
                forall|j: int| 0 <= j < i ==> self.entries@[j].0 != key,
            decreases self.entries.len() - i,
        {
            if self.entries[i].0 == key {
                proof {
                    entries_map_values(self.entries@);
                    assert(self@[self.entries@[i as int].0] == self.entries@[i as int].1);
                }
                return Some(self.entries[i].1);
            }
            i += 1;
        }
        proof {
            entries_map_keys(self.entries@);
        }
        None
    }
}

} // verus!
