//! Dominator sets of the basic blocks, by iteration to the fixed point.

use vstd::prelude::*;
use super::block::{block_views, linked, BasicBlock, BlockView};

verus! {

/// Whether `j` is in the set of every block of `preds`.
pub open spec fn meet(sets: Seq<Seq<bool>>, preds: Seq<usize>, j: int) -> bool {
    forall|x: int| 0 <= x < preds.len() ==> (#[trigger] sets[preds[x] as int])[j]
}

/// Whether `j` is in the set that the sets of the predecessors give to the
/// block `i`: the block itself and what all its predecessors have.
pub open spec fn transfer(sets: Seq<Seq<bool>>, preds: Seq<usize>, i: int, j: int) -> bool {
    j == i || meet(sets, preds, j)
}

/// The sets are one for each block, each over all blocks.
pub open spec fn square(sets: Seq<Seq<bool>>, n: nat) -> bool {
    &&& sets.len() == n
    &&& forall|i: int| 0 <= i < n ==> (#[trigger] sets[i]).len() == n
}

/// The sets solve the dominator equations of the blocks: the set of the
/// entry block holds the entry block alone; the set of any other block with
/// predecessors holds the block itself and what the sets of all its
/// predecessors hold. A block without predecessors cannot be reached, and
/// its set holds every block.
pub open spec fn solves(blocks: Seq<BlockView>, sets: Seq<Seq<bool>>) -> bool {
    &&& square(sets, blocks.len())
    &&& forall|j: int| 0 <= j < blocks.len() ==> #[trigger] sets[0][j] == (j == 0)
    &&& forall|i: int, j: int|
        0 < i < blocks.len() && 0 <= j < blocks.len() ==> #[trigger] sets[i][j] == (
        blocks[i].predecessors.len() == 0 || transfer(sets, blocks[i].predecessors, i, j))
}

/// Every set of `a` is within the set of `b` for the same block.
pub open spec fn within(a: Seq<Seq<bool>>, b: Seq<Seq<bool>>, n: nat) -> bool {
    forall|i: int, j: int| 0 <= i < n && 0 <= j < n ==> (#[trigger] a[i][j] ==> b[i][j])
}

/// Number of members of a set.
pub open spec fn ones(row: Seq<bool>) -> nat
    decreases row.len(),
{
    if row.len() == 0 {
        0
    } else {
        ones(row.drop_last()) + if row.last() {
            1nat
        } else {
            0nat
        }
    }
}

/// Number of members of all sets together.
pub open spec fn total(sets: Seq<Seq<bool>>) -> nat
    decreases sets.len(),
{
    if sets.len() == 0 {
        0
    } else {
        total(sets.drop_last()) + ones(sets.last())
    }
}

/// A set within another has no more members, and fewer if it is another set.
proof fn ones_shrinks(new: Seq<bool>, old: Seq<bool>)
    requires
        new.len() == old.len(),
        forall|j: int| 0 <= j < new.len() ==> (#[trigger] new[j] ==> old[j]),
    ensures
        ones(new) <= ones(old),
        new != old ==> ones(new) < ones(old),
    decreases new.len(),
{
    if new.len() > 0 {
        let n0 = new.drop_last();
        let o0 = old.drop_last();
        ones_shrinks(n0, o0);
        if new != old {
            if n0 == o0 {
                if new.last() == old.last() {
                    assert(new =~= n0.push(new.last()));
                    assert(old =~= o0.push(old.last()));
                }
            }
        }
    } else {
        assert(new =~= old);
    }
}

/// Replacing one set changes the total by the difference of the two sets.
proof fn total_update(sets: Seq<Seq<bool>>, i: int, row: Seq<bool>)
    requires
        0 <= i < sets.len(),
    ensures
        total(sets.update(i, row)) == total(sets) - ones(sets[i]) + ones(row),
    decreases sets.len(),
{
    let after = sets.update(i, row);
    if i == sets.len() - 1 {
        assert(after.drop_last() =~= sets.drop_last());
    } else {
        assert(after.drop_last() =~= sets.drop_last().update(i, row));
        total_update(sets.drop_last(), i, row);
    }
}

/// The sets as sequences.
pub open spec fn set_views(sets: Seq<Vec<bool>>) -> Seq<Seq<bool>> {
    Seq::new(sets.len(), |i: int| sets[i]@)
}

/// The set with every block in it, or with the block `only` alone.
fn initial_set(n: usize, only: Option<usize>) -> (row: Vec<bool>)
    ensures
        row@.len() == n,
        forall|j: int| 0 <= j < n ==> #[trigger] row@[j] == (only is None || only == Some(j as usize)),
{
    let mut row: Vec<bool> = Vec::new();
    let mut j: usize = 0;
    while j < n
        invariant
            j <= n,
            row@.len() == j,
            forall|k: int|
                0 <= k < j ==> #[trigger] row@[k] == (only is None || only == Some(k as usize)),
        decreases n - j,
    {
        let member = match only {
            None => true,
            Some(o) => o == j,
        };
        row.push(member);
        j += 1;
    }
    row
}

/// The set that the sets of the predecessors give to the block `i`.
fn transferred(sets: &Vec<Vec<bool>>, preds: &Vec<usize>, i: usize, n: usize) -> (row: Vec<bool>)
    requires
        square(set_views(sets@), n as nat),
        forall|x: int| 0 <= x < preds@.len() ==> (#[trigger] preds@[x]) < n,
    ensures
        row@.len() == n,
        forall|j: int|
            0 <= j < n ==> #[trigger] row@[j] == transfer(set_views(sets@), preds@, i as int, j),
{
    let mut row: Vec<bool> = Vec::new();
    let mut j: usize = 0;
    while j < n
        invariant
            j <= n,
            row@.len() == j,
            square(set_views(sets@), n as nat),
            forall|x: int| 0 <= x < preds@.len() ==> (#[trigger] preds@[x]) < n,
            forall|k: int|
                0 <= k < j ==> #[trigger] row@[k] == transfer(
                    set_views(sets@),
                    preds@,
                    i as int,
                    k,
                ),
        decreases n - j,
    {
        let mut all = true;
        let mut x: usize = 0;
        while x < preds.len()
            invariant
                j < n,
                x <= preds@.len(),
                square(set_views(sets@), n as nat),
                forall|y: int| 0 <= y < preds@.len() ==> (#[trigger] preds@[y]) < n,
                all == (forall|y: int|
                    0 <= y < x ==> (#[trigger] set_views(sets@)[preds@[y] as int])[j as int]),
            decreases preds.len() - x,
        {
            let p = preds[x];
            assert(set_views(sets@)[p as int].len() == n);
            if !sets[p][j] {
                all = false;
            }
            x += 1;
        }
        row.push(j == i || all);
        j += 1;
    }
    row
}

/// Whether two sets over `n` blocks differ.
fn differ(a: &Vec<bool>, b: &Vec<bool>, n: usize) -> (r: bool)
    requires
        a@.len() == n,
        b@.len() == n,
    ensures
        r == (a@ != b@),
{
    let mut j: usize = 0;
    while j < n
        invariant
            j <= n,
            a@.len() == n,
            b@.len() == n,
            forall|k: int| 0 <= k < j ==> a@[k] == b@[k],
        decreases n - j,
    {
        if a[j] != b[j] {
            return true;
        }
        j += 1;
    }
    assert(a@ =~= b@);
    false
}

/// The dominator sets of the blocks: in the result, the element `d` of the
/// row `b` tells whether the block `d` dominates the block `b`. The sets
/// are found by iteration to the fixed point of the dominator equations,
/// of which they are the largest solution.
pub fn dominators(blocks: &Vec<BasicBlock>) -> (sets: Vec<Vec<bool>>)
    requires
        linked(block_views(blocks@)),
    ensures
        square(set_views(sets@), blocks@.len() as nat),
        forall|b: int, d: int|
            0 <= b < blocks@.len() && 0 <= d < blocks@.len() ==> (#[trigger] set_views(
                sets@,
            )[b][d] <==> dominates(block_views(blocks@), d, b)),
        solves(block_views(blocks@), set_views(sets@)),
        forall|other: Seq<Seq<bool>>| #[trigger]
            solves(block_views(blocks@), other) ==> within(other, set_views(sets@), blocks@.len()),
{
    let n = blocks.len();
    let ghost graph = block_views(blocks@);
    let mut sets: Vec<Vec<bool>> = Vec::new();
    let mut i: usize = 0;
    while i < n
        invariant
            i <= n,
            sets@.len() == i,
            forall|k: int| 0 <= k < i ==> (#[trigger] sets@[k])@.len() == n,
            forall|k: int, j: int|
                0 <= k < i && 0 <= j < n ==> #[trigger] sets@[k]@[j] == (k != 0 || j == 0),
        decreases n - i,
    {
        let row = if i == 0 {
            initial_set(n, Some(0))
        } else {
            initial_set(n, None)
        };
        sets.push(row);
        i += 1;
    }
    let mut changed = true;
    while changed
        invariant
            n == blocks@.len(),
            graph == block_views(blocks@),
            linked(graph),
            square(set_views(sets@), n as nat),
            forall|j: int| 0 <= j < n ==> #[trigger] set_views(sets@)[0][j] == (j == 0),
            forall|k: int| 0 < k < n ==> #[trigger] set_views(sets@)[k][k],
            forall|k: int, j: int|
                0 < k < n && 0 <= j < n && graph[k].predecessors.len() == 0
                    ==> #[trigger] set_views(sets@)[k][j],
            forall|k: int, j: int|
                0 < k < n && 0 <= j < n && transfer(set_views(sets@), graph[k].predecessors, k, j)
                    ==> #[trigger] set_views(sets@)[k][j],
            forall|other: Seq<Seq<bool>>| #[trigger]
                solves(graph, other) ==> within(other, set_views(sets@), n as nat),
            !changed ==> solves(graph, set_views(sets@)),
        decreases 2 * total(set_views(sets@)) + if changed { 1nat } else { 0nat },
    {
        changed = false;
        let ghost at_start = set_views(sets@);
        let mut i: usize = 1;
        while i < n
            invariant
                1 <= i,
                n == blocks@.len(),
                graph == block_views(blocks@),
                linked(graph),
                square(set_views(sets@), n as nat),
                forall|j: int| 0 <= j < n ==> #[trigger] set_views(sets@)[0][j] == (j == 0),
                forall|k: int| 0 < k < n ==> #[trigger] set_views(sets@)[k][k],
                forall|k: int, j: int|
                    0 < k < n && 0 <= j < n && graph[k].predecessors.len() == 0
                        ==> #[trigger] set_views(sets@)[k][j],
                forall|k: int, j: int|
                    0 < k < n && 0 <= j < n && transfer(
                        set_views(sets@),
                        graph[k].predecessors,
                        k,
                        j,
                    ) ==> #[trigger] set_views(sets@)[k][j],
                forall|other: Seq<Seq<bool>>| #[trigger]
                    solves(graph, other) ==> within(other, set_views(sets@), n as nat),
                total(set_views(sets@)) <= total(at_start),
                changed ==> total(set_views(sets@)) < total(at_start),
                !changed ==> forall|k: int, j: int|
                    0 < k < i && k < n && 0 <= j < n ==> #[trigger] set_views(sets@)[k][j] == (
                    graph[k].predecessors.len() == 0 || transfer(
                        set_views(sets@),
                        graph[k].predecessors,
                        k,
                        j,
                    )),
            decreases n - i,
        {
            if blocks[i].predecessors.len() > 0 {
                let ghost before = set_views(sets@);
                let ghost preds = graph[i as int].predecessors;
                assert forall|x: int| 0 <= x < preds.len() implies (#[trigger] preds[x]) < n by {}
                let row = transferred(&sets, &blocks[i].predecessors, i, n);
                assert(before[i as int] == sets@[i as int]@);
                if differ(&row, &sets[i], n) {
                    proof {
                        ones_shrinks(row@, before[i as int]);
                        total_update(before, i as int, row@);
                    }
                    sets.set(i, row);
                    changed = true;
                    proof {
                        let after = set_views(sets@);
                        assert(after =~= before.update(i as int, row@));
                        assert forall|k: int, j: int|
                            0 < k < n && 0 <= j < n && transfer(
                                after,
                                graph[k].predecessors,
                                k,
                                j,
                            ) implies #[trigger] after[k][j] by {
                            transfer_grows(graph, after, before, k, j);
                        }
                        assert forall|other: Seq<Seq<bool>>| #[trigger]
                            solves(graph, other) implies within(other, after, n as nat) by {
                            assert forall|k: int, j: int|
                                0 <= k < n && 0 <= j < n && #[trigger] other[k][j] implies after[k][j] by {
                                if k == i {
                                    assert(other[i as int][j] == (graph[i as int].predecessors.len()
                                        == 0 || transfer(other, preds, i as int, j)));
                                    transfer_grows(graph, other, before, i as int, j);
                                }
                            }
                        }
                    }
                } else {
                    assert forall|j: int| 0 <= j < n implies #[trigger] set_views(
                        sets@,
                    )[i as int][j] == transfer(set_views(sets@), preds, i as int, j) by {}
                }
            }
            i += 1;
        }
    }
    proof {
        assert forall|b: int, d: int| 0 <= b < n && 0 <= d < n implies (#[trigger] set_views(
            sets@,
        )[b][d] <==> dominates(graph, d, b)) by {
            largest_solution_is_dominance(graph, set_views(sets@), b, d);
        }
    }
    sets
}

/// With larger sets at the predecessors the transferred set is larger.
proof fn transfer_grows(
    graph: Seq<BlockView>,
    small: Seq<Seq<bool>>,
    large: Seq<Seq<bool>>,
    k: int,
    j: int,
)
    requires
        linked(graph),
        0 <= k < graph.len(),
        0 <= j < graph.len(),
        within(small, large, graph.len()),
        transfer(small, graph[k].predecessors, k, j),
    ensures
        transfer(large, graph[k].predecessors, k, j),
{
    let preds = graph[k].predecessors;
    if j != k {
        assert forall|x: int| 0 <= x < preds.len() implies (#[trigger] large[preds[x] as int])[j] by {
            assert(small[preds[x] as int][j] ==> large[preds[x] as int][j]);
        }
    }
}

/// `path` leads from the entry block to the block `to` along edges: it
/// starts at the block 0, ends at `to`, and each of its blocks is a
/// predecessor of the next.
pub open spec fn is_entry_path(graph: Seq<BlockView>, path: Seq<usize>, to: int) -> bool {
    &&& path.len() > 0
    &&& path[0] == 0
    &&& path.last() == to
    &&& forall|k: int| 0 <= k < path.len() ==> (#[trigger] path[k]) < graph.len()
    &&& forall|k: int|
        0 <= k < path.len() - 1 ==> graph[path[k + 1] as int].predecessors.contains(
            #[trigger] path[k],
        )
}

/// The block `d` dominates the block `b`: every path from the entry block
/// to `b` passes `d`.
pub open spec fn dominates(graph: Seq<BlockView>, d: int, b: int) -> bool {
    forall|path: Seq<usize>| #[trigger] is_entry_path(graph, path, b) ==> path.contains(d as usize)
}

/// The sets that dominance gives: for every block the blocks that dominate it.
pub open spec fn by_paths(graph: Seq<BlockView>) -> Seq<Seq<bool>> {
    Seq::new(graph.len(), |b: int| Seq::new(graph.len(), |d: int| dominates(graph, d, b)))
}

/// A block in the set of another, in a solution of the equations, is on
/// every path from the entry to the other.
proof fn solution_is_on_paths(
    graph: Seq<BlockView>,
    sets: Seq<Seq<bool>>,
    path: Seq<usize>,
    b: int,
    d: int,
)
    requires
        solves(graph, sets),
        0 <= b < graph.len(),
        0 <= d < graph.len(),
        sets[b][d],
        is_entry_path(graph, path, b),
    ensures
        path.contains(d as usize),
    decreases path.len(),
{
    if b != 0 && d != b {
        let p = path[path.len() - 2];
        let shorter = path.drop_last();
        solution_is_on_paths(graph, sets, shorter, p as int, d);
    }
}

/// The sets that dominance gives solve the dominator equations.
proof fn paths_solve(graph: Seq<BlockView>)
    requires
        linked(graph),
        graph.len() <= usize::MAX,
    ensures
        solves(graph, by_paths(graph)),
{
    let sets = by_paths(graph);
    let n = graph.len();
    assert forall|j: int| 0 <= j < n implies #[trigger] sets[0][j] == (j == 0) by {
        let alone = seq![0usize];
        assert(is_entry_path(graph, alone, 0));
    }
    assert forall|i: int, j: int| 0 < i < n && 0 <= j < n implies #[trigger] sets[i][j] == (
    graph[i].predecessors.len() == 0 || transfer(sets, graph[i].predecessors, i, j)) by {
        let preds = graph[i].predecessors;
        if dominates(graph, j, i) && preds.len() > 0 && j != i {
            assert forall|x: int| 0 <= x < preds.len() implies (#[trigger] sets[preds[x] as int])[j] by {
                let p = preds[x];
                if p < n {
                    assert forall|path: Seq<usize>| #[trigger]
                        is_entry_path(graph, path, p as int) implies path.contains(
                        j as usize,
                    ) by {
                        let longer = path.push(i as usize);
                        assert(is_entry_path(graph, longer, i));
                    }
                }
            }
        }
        if preds.len() == 0 || transfer(sets, preds, i, j) {
            assert forall|path: Seq<usize>| #[trigger] is_entry_path(graph, path, i) implies path.contains(
                j as usize,
            ) by {
                let p = path[path.len() - 2];
                assert(graph[path[path.len() - 2 + 1] as int].predecessors.contains(
                    path[path.len() - 2],
                ));
                if j != i {
                    assert(sets[p as int][j] == dominates(graph, j, p as int));
                    let shorter = path.drop_last();
                    assert(is_entry_path(graph, shorter, p as int));
                }
            }
        }
    }
}

/// The largest solution of the dominator equations is dominance: a block
/// is in the set of another exactly if every path from the entry block to
/// the other passes it. For a block that no path reaches this holds of
/// every block.
pub proof fn largest_solution_is_dominance(graph: Seq<BlockView>, sets: Seq<Seq<bool>>, b: int, d: int)
    requires
        linked(graph),
        graph.len() <= usize::MAX,
        solves(graph, sets),
        forall|other: Seq<Seq<bool>>| #[trigger]
            solves(graph, other) ==> within(other, sets, graph.len()),
        0 <= b < graph.len(),
        0 <= d < graph.len(),
    ensures
        sets[b][d] <==> dominates(graph, d, b),
{
    if sets[b][d] {
        assert forall|path: Seq<usize>| #[trigger] is_entry_path(graph, path, b) implies path.contains(
            d as usize,
        ) by {
            solution_is_on_paths(graph, sets, path, b, d);
        }
    }
    if dominates(graph, d, b) {
        paths_solve(graph);
        let other = by_paths(graph);
        assert(other[b][d] ==> sets[b][d]);
    }
}

} // verus!
