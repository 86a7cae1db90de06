//! Depth-first traversal of a graph whose nodes are numbered: every node
//! after the nodes it leads to.

use vstd::prelude::*;
use crate::marks::{no_marks, unmarked, unmarked_after_mark};

verus! {

/// The rows of a table as sequences.
pub open spec fn rows(table: Seq<Vec<usize>>) -> Seq<Seq<usize>> {
    Seq::new(table.len(), |i: int| table[i]@)
}

/// The state after the traversal has reached `node`: the marks of the
/// nodes seen, and the order in which the nodes were left. A node that was
/// seen before, and a number that is no node, change nothing. Else the
/// node is marked, then the traversal goes through the nodes it leads to,
/// and then the node is left. `depth` bounds the nesting; it is enough
/// where it is not below the number of nodes without a mark.
pub open spec fn visit(
    edges: Seq<Seq<usize>>,
    node: usize,
    seen: Seq<bool>,
    order: Seq<usize>,
    depth: nat,
) -> (Seq<bool>, Seq<usize>)
    decreases depth, 0nat, 0nat,
{
    if depth == 0 || node >= seen.len() || node >= edges.len() || seen[node as int] {
        (seen, order)
    } else {
        let after = visit_from(edges, node, 0, seen.update(node as int, true), order, (depth - 1) as nat);
        (after.0, after.1.push(node))
    }
}

/// The state after the traversal has gone through the nodes that `node`
/// leads to, from the one at position `k` on.
pub open spec fn visit_from(
    edges: Seq<Seq<usize>>,
    node: usize,
    k: nat,
    seen: Seq<bool>,
    order: Seq<usize>,
    depth: nat,
) -> (Seq<bool>, Seq<usize>)
    decreases depth, 1nat, edges[node as int].len() - k,
{
    if node >= edges.len() || k >= edges[node as int].len() {
        (seen, order)
    } else {
        let after = visit(edges, edges[node as int][k as int], seen, order, depth);
        visit_from(edges, node, k + 1, after.0, after.1, depth)
    }
}

/// The order in which the nodes are left when the traversal is started
/// at every node from `k` on, in ascending order.
pub open spec fn visit_all(edges: Seq<Seq<usize>>, k: nat, seen: Seq<bool>, order: Seq<usize>) -> Seq<
    usize,
>
    decreases edges.len() - k,
{
    if k >= edges.len() || k > usize::MAX {
        order
    } else {
        let after = visit(edges, k as usize, seen, order, edges.len());
        visit_all(edges, k + 1, after.0, after.1)
    }
}

/// The order of the whole graph: the traversal is started at every node
/// in ascending order, with no node seen at first.
pub open spec fn post_order(edges: Seq<Seq<usize>>) -> Seq<usize> {
    visit_all(edges, 0, Seq::new(edges.len(), |i: int| false), Seq::empty())
}

/// Goes on with the traversal at `method`.
pub fn dfs(edges: &Vec<Vec<usize>>, method: usize, visited: &mut Vec<bool>, result: &mut Vec<usize>)
    requires
        old(visited)@.len() == edges@.len(),
    ensures
        final(visited)@.len() == edges@.len(),
        unmarked(final(visited)@) <= unmarked(old(visited)@),
        forall|depth: nat|
            depth >= unmarked(old(visited)@) ==> #[trigger] visit(
                rows(edges@),
                method,
                old(visited)@,
                old(result)@,
                depth,
            ) == (final(visited)@, final(result)@),
    decreases unmarked(old(visited)@),
{
    let ghost graph = rows(edges@);
    let ghost seen0 = visited@;
    let ghost order0 = result@;
    if method < visited.len() && !visited[method] {
        proof {
            unmarked_after_mark(visited@, method as int);
        }
        visited.set(method, true);
        let ghost marked = visited@;
        let ghost inner = unmarked(marked);
        let mut k: usize = 0;
        while k < edges[method].len()
            invariant
                method < edges@.len(),
                graph == rows(edges@),
                k <= edges@[method as int]@.len(),
                visited@.len() == edges@.len(),
                seen0 == old(visited)@,
                inner + 1 == unmarked(seen0),
                unmarked(visited@) <= inner,
                forall|depth: nat|
                    depth >= inner ==> #[trigger] visit_from(graph, method, 0, marked, order0, depth)
                        == visit_from(graph, method, k as nat, visited@, result@, depth),
            decreases edges@[method as int]@.len() - k,
        {
            let ghost seen1 = visited@;
            let ghost order1 = result@;
            let next = edges[method][k];
            dfs(edges, next, visited, result);
            proof {
                assert forall|depth: nat| depth >= inner implies #[trigger] visit_from(
                    graph,
                    method,
                    0,
                    marked,
                    order0,
                    depth,
                ) == visit_from(graph, method, (k + 1) as nat, visited@, result@, depth) by {
                    assert(visit(graph, next, seen1, order1, depth) == (visited@, result@));
                    assert(visit_from(graph, method, k as nat, seen1, order1, depth) == visit_from(
                        graph,
                        method,
                        (k + 1) as nat,
                        visited@,
                        result@,
                        depth,
                    ));
                }
            }
            k += 1;
        }
        let ghost order2 = result@;
        result.push(method);
        proof {
            assert forall|depth: nat| depth >= unmarked(seen0) implies #[trigger] visit(
                graph,
                method,
                seen0,
                order0,
                depth,
            ) == (visited@, result@) by {
                let less = (depth - 1) as nat;
                assert(visit_from(graph, method, 0, marked, order0, less) == visit_from(
                    graph,
                    method,
                    k as nat,
                    visited@,
                    order2,
                    less,
                ));
            }
        }
    }
}

/// The nodes in the order in which a depth-first traversal leaves them:
/// every node after the nodes it leads to, but for those that lead back to
/// it. The traversal is started at every node in ascending order.
pub fn flatten_graph_dfs(edges: &Vec<Vec<usize>>) -> (result: Vec<usize>)
    ensures
        result@ == post_order(rows(edges@)),
{
    let n = edges.len();
    let ghost graph = rows(edges@);
    let mut visited = no_marks(n);
    let mut result: Vec<usize> = Vec::new();
    assert(visited@ =~= Seq::new(graph.len(), |i: int| false));
    let mut k: usize = 0;
    while k < n
        invariant
            k <= n,
            n == edges@.len(),
            graph == rows(edges@),
            visited@.len() == n,
            post_order(graph) == visit_all(graph, k as nat, visited@, result@),
        decreases n - k,
    {
        proof {
            unmarked_at_most(visited@);
        }
        let ghost seen = visited@;
        let ghost order = result@;
        dfs(edges, k, &mut visited, &mut result);
        k += 1;
    }
    result
}

/// There are no more unset marks than marks.
pub proof fn unmarked_at_most(marks: Seq<bool>)
    ensures
        unmarked(marks) <= marks.len(),
    decreases marks.len(),
{
    if marks.len() > 0 {
        unmarked_at_most(marks.drop_last());
    }
}

} // verus!
