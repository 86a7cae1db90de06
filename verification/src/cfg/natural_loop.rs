//! Natural loops: for every edge that leads back to a dominator, the blocks
//! from which the edge can be reached without passing the dominator.

use vstd::prelude::*;
use super::block::{block_views, count, linked, BasicBlock, BlockView};
use super::dominators::{set_views, square};
use crate::marks::{no_marks, unmarked, unmarked_after_mark};

verus! {

/// A natural loop: its header and the blocks that belong to it, the header
/// first. Both are indices of blocks.
#[derive(Debug)]
pub struct Loop {
    pub header: usize,
    pub blocks: Vec<usize>,
}

/// What a [`Loop`] stands for: its header and the set of its blocks.
pub struct LoopView {
    pub header: usize,
    pub members: Set<usize>,
}

impl View for Loop {
    type V = LoopView;

    open spec fn view(&self) -> LoopView {
        LoopView { header: self.header, members: self.blocks@.to_set() }
    }
}

impl Loop {
    /// The loop that holds its header alone.
    pub fn new(header: usize) -> (l: Loop)
        ensures
            l.header == header,
            l.blocks@ == seq![header],
            l@.members == set![header],
    {
        let mut blocks = Vec::new();
        blocks.push(header);
        assert(blocks@ =~= seq![header]);
        assert(blocks@.to_set() =~= set![header]) by {
            assert forall|x: usize| blocks@.to_set().contains(x) <==> set![header].contains(x) by {
                if x == header {
                    assert(blocks@[0] == x);
                }
            }
        }
        Loop { header, blocks }
    }

    /// Puts `block` into the loop.
    pub fn add_block(&mut self, block: usize)
        ensures
            final(self).header == old(self).header,
            final(self).blocks@ == old(self).blocks@.push(block),
            final(self)@.members == old(self)@.members.insert(block),
    {
        let ghost before = self.blocks@;
        self.blocks.push(block);
        assert(before.push(block).to_set() =~= before.to_set().insert(block)) by {
            let after = before.push(block);
            assert forall|x: usize| after.to_set().contains(x) <==> before.to_set().insert(
                block,
            ).contains(x) by {
                if before.contains(x) {
                    let i = choose|i: int| 0 <= i < before.len() && before[i] == x;
                    assert(after[i] == x);
                }
                if x == block {
                    assert(after[before.len() as int] == x);
                }
            }
        }
    }

    /// Whether `block` belongs to the loop.
    pub fn contains(&self, block: usize) -> (r: bool)
        ensures
            r == self@.members.contains(block),
    {
        let mut i: usize = 0;
        while i < self.blocks.len()
            invariant
                i <= self.blocks@.len(),
                forall|k: int| 0 <= k < i ==> self.blocks@[k] != block,
            decreases self.blocks.len() - i,
        {
            if self.blocks[i] == block {
                return true;
            }
            i += 1;
        }
        false
    }
}

/// The blocks of `path` are among `members`, the path starts at `from` and
/// ends at `to`, and each of its blocks is a predecessor of the next.
pub open spec fn is_walk(
    graph: Seq<BlockView>,
    members: Set<usize>,
    path: Seq<usize>,
    from: usize,
    to: usize,
) -> bool {
    &&& path.len() > 0
    &&& path[0] == from
    &&& path.last() == to
    &&& forall|k: int| 0 <= k < path.len() ==> members.contains(#[trigger] path[k])
    &&& forall|k: int|
        0 <= k < path.len() - 1 ==> graph[path[k + 1] as int].predecessors.contains(
            #[trigger] path[k],
        )
}

/// From `from` the block `to` is reached along edges without leaving `members`.
pub open spec fn reaches_within(
    graph: Seq<BlockView>,
    members: Set<usize>,
    from: usize,
    to: usize,
) -> bool {
    exists|path: Seq<usize>| #[trigger] is_walk(graph, members, path, from, to)
}

/// `l` is the natural loop of the edge from `tail` back to the header of
/// `l`: it holds the header, and besides it exactly the blocks from which
/// `tail` is reached without passing the header.
pub open spec fn is_natural_loop(graph: Seq<BlockView>, l: LoopView, tail: usize) -> bool {
    &&& l.header < graph.len()
    &&& l.members.contains(l.header)
    &&& l.members.contains(tail)
    &&& graph[l.header as int].predecessors.contains(tail)
    &&& forall|m: usize| #[trigger] l.members.contains(m) ==> m < graph.len()
    &&& forall|m: usize|
        #[trigger] l.members.contains(m) && m != l.header ==> reaches_within(
            graph,
            l.members.remove(l.header),
            m,
            tail,
        )
    &&& forall|m: usize, x: int|
        l.members.contains(m) && m != l.header && m < graph.len() && 0 <= x
            < graph[m as int].predecessors.len() ==> l.members.contains(
            #[trigger] graph[m as int].predecessors[x],
        )
}

/// In a natural loop the header is reached from every block of the loop
/// along edges that stay inside the loop.
pub proof fn header_is_reached(graph: Seq<BlockView>, l: LoopView, tail: usize, m: usize)
    requires
        is_natural_loop(graph, l, tail),
        l.members.contains(m),
    ensures
        l.members.contains(l.header),
        reaches_within(graph, l.members, m, l.header),
{
    if m == l.header {
        assert(is_walk(graph, l.members, seq![m], m, l.header));
    } else {
        let inner = l.members.remove(l.header);
        let path = choose|path: Seq<usize>| #[trigger] is_walk(graph, inner, path, m, tail);
        let whole = path.push(l.header);
        assert(is_walk(graph, l.members, whole, m, l.header));
    }
}

/// A block that occurs in a list is counted in it, and the other way round.
pub proof fn counted_iff_contained(s: Seq<usize>, x: usize)
    ensures
        count(s, x) > 0 <==> s.contains(x),
    decreases s.len(),
{
    if s.len() > 0 {
        counted_iff_contained(s.drop_last(), x);
        if s.contains(x) {
            let i = choose|i: int| 0 <= i < s.len() && s[i] == x;
            if i < s.len() - 1 {
                assert(s.drop_last()[i] == x);
            }
        }
    }
}

/// What the search for a loop has found so far.
spec fn found(
    graph: Seq<BlockView>,
    l: LoopView,
    tail: usize,
    marks: Seq<bool>,
    walks: Map<usize, Seq<usize>>,
    pending: Seq<usize>,
) -> bool {
    &&& marks.len() == graph.len()
    &&& l.header < graph.len()
    &&& forall|m: usize| #[trigger] l.members.contains(m) <==> m < graph.len() && marks[m as int]
    &&& l.members.contains(l.header)
    &&& l.members.contains(tail)
    &&& forall|m: usize|
        #[trigger] l.members.contains(m) && m != l.header ==> is_walk(
            graph,
            l.members.remove(l.header),
            walks[m],
            m,
            tail,
        )
    &&& forall|k: int|
        0 <= k < pending.len() ==> l.members.contains(#[trigger] pending[k]) && pending[k]
            != l.header
}

/// Every predecessor of the member `m` is a member.
spec fn closed_at(graph: Seq<BlockView>, l: LoopView, m: usize, upto: int) -> bool {
    forall|x: int|
        0 <= x < upto && x < graph[m as int].predecessors.len() ==> l.members.contains(
            #[trigger] graph[m as int].predecessors[x],
        )
}

/// Every member besides the header that is not pending has all its
/// predecessors among the members.
spec fn closed_but(graph: Seq<BlockView>, l: LoopView, pending: Seq<usize>, current: Option<usize>) -> bool {
    forall|m: usize|
        #[trigger] l.members.contains(m) && m != l.header && !pending.contains(m) && current
            != Some(m) ==> closed_at(graph, l, m, graph[m as int].predecessors.len() as int)
}

/// A walk within a set is a walk within every larger set.
proof fn walk_stays(
    graph: Seq<BlockView>,
    small: Set<usize>,
    large: Set<usize>,
    path: Seq<usize>,
    from: usize,
    to: usize,
)
    requires
        is_walk(graph, small, path, from, to),
        small.subset_of(large),
    ensures
        is_walk(graph, large, path, from, to),
{
}

/// The natural loop of the edge that leads from `tail` back to `header`.
pub fn natural_loop(blocks: &Vec<BasicBlock>, header: usize, tail: usize) -> (l: Loop)
    requires
        linked(block_views(blocks@)),
        header < blocks@.len(),
        tail < blocks@.len(),
        blocks@[header as int].predecessors@.contains(tail),
    ensures
        l.header == header,
        l.blocks@.len() > 0,
        l.blocks@[0] == header,
        l.blocks@.no_duplicates(),
        is_natural_loop(block_views(blocks@), l@, tail),
{
    let n = blocks.len();
    let ghost graph = block_views(blocks@);
    let mut l = Loop::new(header);
    let mut marks = no_marks(n);
    marks.set(header, true);
    let mut pending: Vec<usize> = Vec::new();
    let ghost mut walks: Map<usize, Seq<usize>> = Map::empty();
    if tail != header {
        l.add_block(tail);
        marks.set(tail, true);
        pending.push(tail);
        proof {
            walks = walks.insert(tail, seq![tail]);
            assert(is_walk(graph, l@.members.remove(header), seq![tail], tail, tail));
        }
    }
    while pending.len() > 0
        invariant
            n == blocks@.len(),
            graph == block_views(blocks@),
            linked(graph),
            l.header == header,
            l.blocks@.len() > 0,
            l.blocks@[0] == header,
            graph[header as int].predecessors.contains(tail),
            l.blocks@.no_duplicates(),
            found(graph, l@, tail, marks@, walks, pending@),
            closed_but(graph, l@, pending@, None),
        decreases unmarked(marks@), pending@.len(),
    {
        let ghost before_pop = pending@;
        let b = pending.pop().unwrap();
        assert forall|m: usize|
            #[trigger] l@.members.contains(m) && m != l@.header && !pending@.contains(m) && Some(b)
                != Some(m) implies closed_at(graph, l@, m, graph[m as int].predecessors.len() as int) by {
            if before_pop.contains(m) {
                let k = choose|k: int| 0 <= k < before_pop.len() && before_pop[k] == m;
                assert(pending@[k] == m);
            }
        }
        let ghost marks_at_pop = marks@;
        let count = blocks[b].predecessors.len();
        let mut x: usize = 0;
        while x < count
            invariant
                x <= count,
                b < n,
                b != header,
                count == graph[b as int].predecessors.len(),
                n == blocks@.len(),
                graph == block_views(blocks@),
                linked(graph),
                l.header == header,
                l.blocks@.len() > 0,
                l.blocks@[0] == header,
                graph[header as int].predecessors.contains(tail),
                l.blocks@.no_duplicates(),
                l@.members.contains(b),
                found(graph, l@, tail, marks@, walks, pending@),
                closed_but(graph, l@, pending@, Some(b)),
                closed_at(graph, l@, b, x as int),
                unmarked(marks@) <= unmarked(marks_at_pop),
                unmarked(marks@) == unmarked(marks_at_pop) ==> pending@.len() + 1
                    == before_pop.len(),
            decreases count - x,
        {
            let p = blocks[b].predecessors[x];
            if !marks[p] {
                let ghost old_l = l@;
                let ghost old_pending = pending@;
                proof {
                    unmarked_after_mark(marks@, p as int);
                    assert(!l.blocks@.contains(p)) by {
                        assert(!old_l.members.contains(p));
                    }
                }
                l.add_block(p);
                marks.set(p, true);
                pending.push(p);
                proof {
                    let walk_b = walks[b];
                    let walk_p = seq![p] + walk_b;
                    let old_inner = old_l.members.remove(header);
                    let inner = l@.members.remove(header);
                    let old_walks = walks;
                    walks = walks.insert(p, walk_p);
                    assert forall|m: usize|
                        #[trigger] l@.members.contains(m) && m != l@.header implies is_walk(
                        graph,
                        inner,
                        walks[m],
                        m,
                        tail,
                    ) by {
                        if m != p {
                            walk_stays(graph, old_inner, inner, old_walks[m], m, tail);
                        }
                    }
                    assert forall|m: usize|
                        #[trigger] l@.members.contains(m) && m != l@.header && !pending@.contains(m)
                            && Some(b) != Some(m) implies closed_at(
                        graph,
                        l@,
                        m,
                        graph[m as int].predecessors.len() as int,
                    ) by {
                        if m == p {
                            assert(pending@[old_pending.len() as int] == p);
                        } else {
                            if old_pending.contains(m) {
                                let k = choose|k: int| 0 <= k < old_pending.len() && old_pending[k] == m;
                                assert(pending@[k] == m);
                            }
                            assert(closed_at(
                                graph,
                                old_l,
                                m,
                                graph[m as int].predecessors.len() as int,
                            ));
                        }
                    }
                }
            }
            x += 1;
        }
        assert forall|m: usize|
            #[trigger] l@.members.contains(m) && m != l@.header && !pending@.contains(m)
                implies closed_at(graph, l@, m, graph[m as int].predecessors.len() as int) by {}
    }
    l
}

/// The edges among the successors of the block `u` that lead back to a
/// dominator of `u`, each as the pair of `u` and the dominator.
pub open spec fn back_edges_from(u: usize, successors: Seq<usize>, dominators: Seq<bool>) -> Seq<
    (usize, usize),
>
    decreases successors.len(),
{
    if successors.len() == 0 {
        Seq::empty()
    } else {
        let rest = back_edges_from(u, successors.drop_last(), dominators);
        if dominators[successors.last() as int] {
            rest.push((u, successors.last()))
        } else {
            rest
        }
    }
}

/// The back edges of the first `n` blocks, block by block and for each
/// block in the order of its successors.
pub open spec fn back_edges(graph: Seq<BlockView>, sets: Seq<Seq<bool>>, n: nat) -> Seq<
    (usize, usize),
>
    decreases n,
{
    if n == 0 {
        Seq::empty()
    } else {
        back_edges(graph, sets, (n - 1) as nat) + back_edges_from(
            (n - 1) as usize,
            graph[n - 1].successors,
            sets[n - 1],
        )
    }
}

/// The loops of a list as what they stand for.
pub open spec fn loop_views(loops: Seq<Loop>) -> Seq<LoopView> {
    Seq::new(loops.len(), |i: int| loops[i]@)
}

/// `loops` holds the natural loop of each of `edges`, in their order.
pub open spec fn loops_of(graph: Seq<BlockView>, loops: Seq<LoopView>, edges: Seq<(usize, usize)>) -> bool {
    &&& loops.len() == edges.len()
    &&& forall|k: int|
        0 <= k < loops.len() ==> (#[trigger] loops[k]).header == edges[k].1 && is_natural_loop(
            graph,
            loops[k],
            edges[k].0,
        )
}

/// The natural loops of the blocks, given their dominator sets: one loop
/// for every edge to a successor that dominates the block the edge comes
/// from. Edges that share a header give a loop each.
pub fn natural_loops(blocks: &Vec<BasicBlock>, sets: &Vec<Vec<bool>>) -> (loops: Vec<Loop>)
    requires
        linked(block_views(blocks@)),
        square(set_views(sets@), blocks@.len()),
    ensures
        loops_of(
            block_views(blocks@),
            loop_views(loops@),
            back_edges(block_views(blocks@), set_views(sets@), blocks@.len()),
        ),
{
    let n = blocks.len();
    let ghost graph = block_views(blocks@);
    let ghost doms = set_views(sets@);
    let mut loops: Vec<Loop> = Vec::new();
    let mut u: usize = 0;
    while u < n
        invariant
            u <= n,
            n == blocks@.len(),
            graph == block_views(blocks@),
            doms == set_views(sets@),
            linked(graph),
            square(doms, n as nat),
            loops_of(graph, loop_views(loops@), back_edges(graph, doms, u as nat)),
        decreases n - u,
    {
        let degree = blocks[u].successors.len();
        let ghost done = back_edges(graph, doms, u as nat);
        let ghost row = graph[u as int].successors;
        let mut x: usize = 0;
        while x < degree
            invariant
                u < n,
                x <= degree,
                degree == row.len(),
                row == graph[u as int].successors,
                n == blocks@.len(),
                graph == block_views(blocks@),
                doms == set_views(sets@),
                linked(graph),
                square(doms, n as nat),
                loops_of(
                    graph,
                    loop_views(loops@),
                    done + back_edges_from(u, row.take(x as int), doms[u as int]),
                ),
            decreases degree - x,
        {
            let v = blocks[u].successors[x];
            assert(row.take(x + 1).drop_last() =~= row.take(x as int));
            if sets[u][v] {
                proof {
                    counted_iff_contained(graph[u as int].successors, v);
                    counted_iff_contained(graph[v as int].predecessors, u);
                    assert(count(graph[u as int].successors, v) == count(
                        graph[v as int].predecessors,
                        u,
                    ));
                }
                let l = natural_loop(blocks, v, u);
                let ghost before = loop_views(loops@);
                loops.push(l);
                proof {
                    let edges = done + back_edges_from(u, row.take(x + 1), doms[u as int]);
                    let views = loop_views(loops@);
                    assert(edges =~= (done + back_edges_from(
                        u,
                        row.take(x as int),
                        doms[u as int],
                    )).push((u, v)));
                    assert forall|k: int| 0 <= k < views.len() implies (#[trigger] views[k]).header
                        == edges[k].1 && is_natural_loop(graph, views[k], edges[k].0) by {
                        if k < before.len() {
                            assert(views[k] == before[k]);
                        }
                    }
                }
            }
            x += 1;
        }
        assert(row.take(degree as int) =~= row);
        u += 1;
    }
    loops
}

} // verus!
