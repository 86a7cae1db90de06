//! What holds of the flattened order of every call graph.

use vstd::prelude::*;
use super::flatten::{
    ascending, ascending_insert, backwards, flattened, graph_keys, graph_of, graph_values,
    initial_stack, picked_keys, picked_keys_are_descending, run, CallNodeView,
};
use super::method::{sig_lt, sig_lt_transitive, MethodView, SignatureView};

verus! {

/// The method under `a` calls `b`.
pub open spec fn calls(graph: Map<SignatureView, CallNodeView>, a: SignatureView, b: SignatureView) -> bool {
    graph.contains_key(a) && graph[a].calls.contains(b)
}

/// `path` is a chain of calls that starts at a preferred method of the graph.
pub open spec fn is_chain(
    graph: Map<SignatureView, CallNodeView>,
    preferred: Set<SignatureView>,
    path: Seq<SignatureView>,
) -> bool {
    &&& path.len() > 0
    &&& preferred.contains(path[0])
    &&& graph.contains_key(path[0])
    &&& forall|k: int| 0 <= k < path.len() - 1 ==> calls(graph, #[trigger] path[k], path[k + 1])
}

/// A chain of calls leads from a preferred method of the graph to `s`.
pub open spec fn reached(
    graph: Map<SignatureView, CallNodeView>,
    preferred: Set<SignatureView>,
    s: SignatureView,
) -> bool {
    exists|path: Seq<SignatureView>| #[trigger] is_chain(graph, preferred, path) && path.last() == s
}

/// Wherever a method that is not preferred stands before a preferred one,
/// it is reached from a preferred method.
pub open spec fn bias_holds(
    graph: Map<SignatureView, CallNodeView>,
    preferred: Set<SignatureView>,
    order: Seq<MethodView>,
) -> bool {
    forall|i: int, j: int|
        0 <= i < j < order.len() && preferred.contains((#[trigger] order[j]).signature)
            && !preferred.contains((#[trigger] order[i]).signature) ==> reached(
            graph,
            preferred,
            order[i].signature,
        )
}

/// Every node stands under the signature of its method.
pub open spec fn keyed(graph: Map<SignatureView, CallNodeView>) -> bool {
    forall|s: SignatureView| #[trigger] graph.contains_key(s) ==> graph[s].method.signature == s
}

/// `part` holds some of the nodes of `whole`, and nothing else.
pub open spec fn within(
    part: Map<SignatureView, CallNodeView>,
    whole: Map<SignatureView, CallNodeView>,
) -> bool {
    forall|s: SignatureView| #[trigger]
        part.contains_key(s) ==> whole.contains_key(s) && part[s] == whole[s]
}

/// `s` is not a method of the graph, or is reached from a preferred one.
pub open spec fn tainted(
    graph: Map<SignatureView, CallNodeView>,
    preferred: Set<SignatureView>,
    s: SignatureView,
) -> bool {
    !graph.contains_key(s) || reached(graph, preferred, s)
}

/// No preferred method is left in `graph`.
pub open spec fn none_left(graph: Map<SignatureView, CallNodeView>, preferred: Set<SignatureView>) -> bool {
    forall|s: SignatureView| preferred.contains(s) ==> !#[trigger] graph.contains_key(s)
}

/// The traversal is still at the preferred methods: above `split` the
/// stack holds every preferred method that is left and nothing that is
/// not reached from one, and so far only such methods have come out.
pub open spec fn at_preferred(
    whole: Map<SignatureView, CallNodeView>,
    preferred: Set<SignatureView>,
    graph: Map<SignatureView, CallNodeView>,
    stack: Seq<SignatureView>,
    out: Seq<MethodView>,
    split: int,
) -> bool {
    &&& 0 <= split <= stack.len()
    &&& forall|k: int| split <= k < stack.len() ==> tainted(whole, preferred, #[trigger] stack[k])
    &&& forall|s: SignatureView|
        preferred.contains(s) && #[trigger] graph.contains_key(s) ==> exists|k: int|
            split <= k < stack.len() && #[trigger] stack[k] == s
    &&& forall|i: int| 0 <= i < out.len() ==> reached(whole, preferred, (#[trigger] out[i]).signature)
}

/// A chain of calls goes on with one more call.
proof fn chain_goes_on(
    graph: Map<SignatureView, CallNodeView>,
    preferred: Set<SignatureView>,
    a: SignatureView,
    b: SignatureView,
)
    requires
        reached(graph, preferred, a),
        calls(graph, a, b),
    ensures
        reached(graph, preferred, b),
{
    let path = choose|path: Seq<SignatureView>| #[trigger]
        is_chain(graph, preferred, path) && path.last() == a;
    let longer = path.push(b);
    assert(is_chain(graph, preferred, longer) && longer.last() == b);
}

/// The traversal keeps the bias from every state in which it holds.
proof fn run_keeps_bias(
    whole: Map<SignatureView, CallNodeView>,
    preferred: Set<SignatureView>,
    graph: Map<SignatureView, CallNodeView>,
    stack: Seq<SignatureView>,
    out: Seq<MethodView>,
    split: int,
)
    requires
        keyed(whole),
        within(graph, whole),
        graph.dom().finite(),
        bias_holds(whole, preferred, out),
        none_left(graph, preferred) || at_preferred(whole, preferred, graph, stack, out, split),
    ensures
        bias_holds(whole, preferred, run(graph, stack, out)),
    decreases graph.dom().len(), stack.len(),
{
    if stack.len() > 0 {
        let top = stack.last();
        let rest = stack.drop_last();
        if graph.contains_key(top) {
            let node = graph[top];
            let graph1 = graph.remove(top);
            let stack1 = rest + backwards(node.calls);
            let out1 = out.push(node.method);
            if none_left(graph, preferred) {
                run_keeps_bias(whole, preferred, graph1, stack1, out1, split);
            } else {
                assert(at_preferred(whole, preferred, graph1, stack1, out1, split)) by {
                    assert forall|k: int| split <= k < stack1.len() implies tainted(
                        whole,
                        preferred,
                        #[trigger] stack1[k],
                    ) by {
                        if k >= rest.len() {
                            let c = stack1[k];
                            if whole.contains_key(c) {
                                chain_goes_on(whole, preferred, top, c);
                            }
                        }
                    }
                    assert forall|s: SignatureView|
                        preferred.contains(s) && #[trigger] graph1.contains_key(
                            s,
                        ) implies exists|k: int|
                        split <= k < stack1.len() && #[trigger] stack1[k] == s by {
                        let k = choose|k: int| split <= k < stack.len() && #[trigger] stack[k] == s;
                        assert(stack1[k] == s);
                    }
                }
                run_keeps_bias(whole, preferred, graph1, stack1, out1, split);
            }
        } else {
            if none_left(graph, preferred) {
                run_keeps_bias(whole, preferred, graph, rest, out, split);
            } else if stack.len() == split {
                run_keeps_bias(whole, preferred, graph, rest, out, split);
            } else {
                assert(at_preferred(whole, preferred, graph, rest, out, split)) by {
                    assert forall|s: SignatureView|
                        preferred.contains(s) && #[trigger] graph.contains_key(s) implies exists|k: int|
                        split <= k < rest.len() && #[trigger] rest[k] == s by {
                        let k = choose|k: int| split <= k < stack.len() && #[trigger] stack[k] == s;
                        assert(rest[k] == s);
                    }
                }
                run_keeps_bias(whole, preferred, graph, rest, out, split);
            }
        }
    }
}

/// Where the first node that is not below `key` stands in an ascending list.
proof fn position_of(table: Seq<CallNodeView>, key: SignatureView) -> (p: int)
    requires
        ascending(table),
    ensures
        0 <= p <= table.len(),
        forall|i: int| 0 <= i < p ==> sig_lt((#[trigger] table[i]).method.signature, key),
        forall|i: int| p <= i < table.len() ==> !sig_lt((#[trigger] table[i]).method.signature, key),
    decreases table.len(),
{
    if table.len() == 0 {
        0
    } else {
        let last = table.len() - 1;
        if sig_lt(table[last].method.signature, key) {
            assert forall|i: int| 0 <= i < table.len() implies sig_lt(
                (#[trigger] table[i]).method.signature,
                key,
            ) by {
                if i < last {
                    sig_lt_transitive(table[i].method.signature, table[last].method.signature, key);
                }
            }
            table.len() as int
        } else {
            let init = table.drop_last();
            let p = position_of(init, key);
            assert forall|i: int| 0 <= i < p implies sig_lt(
                (#[trigger] table[i]).method.signature,
                key,
            ) by {
                assert(sig_lt(init[i].method.signature, key));
            }
            assert forall|i: int| p <= i < table.len() implies !sig_lt(
                (#[trigger] table[i]).method.signature,
                key,
            ) by {
                if i < last {
                    assert(!sig_lt(init[i].method.signature, key));
                }
            }
            p
        }
    }
}

/// Every list of nodes has an ascending list that gives the same graph.
pub proof fn ascending_table(nodes: Seq<CallNodeView>) -> (table: Seq<CallNodeView>)
    ensures
        ascending(table),
        graph_of(table) == graph_of(nodes),
    decreases nodes.len(),
{
    if nodes.len() == 0 {
        nodes
    } else {
        let before = ascending_table(nodes.drop_last());
        let node = nodes.last();
        let p = position_of(before, node.method.signature);
        let after = if p < before.len() && before[p].method.signature == node.method.signature {
            before.update(p, node)
        } else {
            before.insert(p, node)
        };
        ascending_insert(before, after, p, node);
        after
    }
}

/// In the graph of a list of nodes every node stands under the signature
/// of its method.
pub proof fn graphs_are_keyed(nodes: Seq<CallNodeView>)
    ensures
        keyed(graph_of(nodes)),
        graph_of(nodes).dom().finite(),
{
    let table = ascending_table(nodes);
    graph_keys(table);
    graph_values(table);
}

/// The manifest bias. In the flattened order of the graph that a list of
/// nodes gives, a method that is not preferred stands before a preferred
/// one only where a chain of calls leads to it from a preferred method of
/// the graph. So every preferred method stands before every method that
/// is neither preferred nor reached from a preferred one.
pub proof fn preferred_come_first(nodes: Seq<CallNodeView>, preferred: Set<SignatureView>)
    ensures
        bias_holds(graph_of(nodes), preferred, flattened(graph_of(nodes), preferred)),
{
    let graph = graph_of(nodes);
    graphs_are_keyed(nodes);
    let table = ascending_table(nodes);
    let marks = Seq::new(table.len(), |i: int| preferred.contains(table[i].method.signature));
    picked_keys_are_descending(table, marks, false, preferred);
    picked_keys_are_descending(table, marks, true, preferred);
    let lower = picked_keys(table, marks, false, 0);
    let upper = picked_keys(table, marks, true, 0);
    let stack = initial_stack(graph, preferred);
    let out = Seq::<MethodView>::empty();
    let split = lower.len() as int;
    assert(at_preferred(graph, preferred, graph, stack, out, split)) by {
        assert forall|k: int| split <= k < stack.len() implies tainted(
            graph,
            preferred,
            #[trigger] stack[k],
        ) by {
            let s = stack[k];
            assert(upper.to_set().contains(s));
            assert(is_chain(graph, preferred, seq![s]) && seq![s].last() == s);
        }
        assert forall|s: SignatureView|
            preferred.contains(s) && #[trigger] graph.contains_key(s) implies exists|k: int|
            split <= k < stack.len() && #[trigger] stack[k] == s by {
            assert(upper.to_set().contains(s));
            let x = choose|x: int| 0 <= x < upper.len() && upper[x] == s;
            assert(stack[split + x] == s);
        }
    }
    run_keeps_bias(graph, preferred, graph, stack, out, split);
}

/// The flattened order is fixed by the graph and the set of preferred
/// signatures: two lists of nodes that give the same graph, in whatever
/// order they hold their nodes, have the same flattened order.
pub proof fn flattening_is_determined(
    first: Seq<CallNodeView>,
    second: Seq<CallNodeView>,
    preferred: Set<SignatureView>,
    other: Set<SignatureView>,
)
    requires
        graph_of(first) == graph_of(second),
        forall|s: SignatureView|
            graph_of(first).contains_key(s) ==> (preferred.contains(s) <==> other.contains(s)),
    ensures
        flattened(graph_of(first), preferred) == flattened(graph_of(second), other),
{
    let graph = graph_of(first);
    assert(graph.dom().difference(preferred) =~= graph.dom().difference(other));
    assert(graph.dom().intersect(preferred) =~= graph.dom().intersect(other));
}

/// The signatures of the methods of a list.
pub open spec fn signatures_of(order: Seq<MethodView>) -> Seq<SignatureView> {
    Seq::new(order.len(), |i: int| order[i].signature)
}

/// What the traversal adds to what has come out before: methods of the
/// graph, each under another signature, and among them a method for every
/// signature of the stack that the graph holds.
spec fn comes_out(
    graph: Map<SignatureView, CallNodeView>,
    stack: Seq<SignatureView>,
    out: Seq<MethodView>,
    all: Seq<MethodView>,
) -> bool {
    &&& all.len() >= out.len()
    &&& all.take(out.len() as int) == out
    &&& forall|k: int|
        out.len() <= k < all.len() ==> graph.contains_key((#[trigger] all[k]).signature) && all[k]
            == graph[all[k].signature].method
    &&& forall|k: int, l: int|
        out.len() <= k < l < all.len() ==> (#[trigger] all[k]).signature != (
        #[trigger] all[l]).signature
    &&& forall|x: int|
        0 <= x < stack.len() && graph.contains_key(#[trigger] stack[x]) ==> exists|k: int|
            out.len() <= k < all.len() && (#[trigger] all[k]).signature == stack[x]
}

/// The traversal lets the methods of the stack come out, each once.
proof fn run_comes_out(
    graph: Map<SignatureView, CallNodeView>,
    stack: Seq<SignatureView>,
    out: Seq<MethodView>,
)
    requires
        keyed(graph),
        graph.dom().finite(),
    ensures
        comes_out(graph, stack, out, run(graph, stack, out)),
    decreases graph.dom().len(), stack.len(),
{
    let all = run(graph, stack, out);
    if stack.len() == 0 {
        assert(all.take(out.len() as int) =~= out);
    } else {
        let top = stack.last();
        let rest = stack.drop_last();
        if graph.contains_key(top) {
            let node = graph[top];
            let graph1 = graph.remove(top);
            let stack1 = rest + backwards(node.calls);
            let out1 = out.push(node.method);
            run_comes_out(graph1, stack1, out1);
            assert(all.take(out.len() as int) =~= out);
            assert(all[out.len() as int] == node.method) by {
                assert(all.take(out1.len() as int)[out.len() as int] == out1[out.len() as int]);
            }
            assert forall|x: int|
                0 <= x < stack.len() && graph.contains_key(#[trigger] stack[x]) implies exists|k: int|
                out.len() <= k < all.len() && (#[trigger] all[k]).signature == stack[x] by {
                if stack[x] != top {
                    let k = choose|k: int|
                        out1.len() <= k < all.len() && (#[trigger] all[k]).signature == stack1[x];
                    assert(all[k].signature == stack[x]);
                }
            }
        } else {
            run_comes_out(graph, rest, out);
            assert forall|x: int|
                0 <= x < stack.len() && graph.contains_key(#[trigger] stack[x]) implies exists|k: int|
                out.len() <= k < all.len() && (#[trigger] all[k]).signature == stack[x] by {
                assert(rest[x] == stack[x]);
            }
        }
    }
}

/// Every method of the graph is in the flattened order, and it is there
/// once: the order holds the method of every signature of the graph, and
/// no two of its methods have the same signature.
pub proof fn every_method_comes_once(nodes: Seq<CallNodeView>, preferred: Set<SignatureView>)
    ensures
        ({
            let graph = graph_of(nodes);
            let order = flattened(graph, preferred);
            &&& signatures_of(order).no_duplicates()
            &&& signatures_of(order).to_set() == graph.dom()
            &&& forall|k: int|
                0 <= k < order.len() ==> (#[trigger] order[k]) == graph[order[k].signature].method
        }),
{
    let graph = graph_of(nodes);
    graphs_are_keyed(nodes);
    let table = ascending_table(nodes);
    let marks = Seq::new(table.len(), |i: int| preferred.contains(table[i].method.signature));
    picked_keys_are_descending(table, marks, false, preferred);
    picked_keys_are_descending(table, marks, true, preferred);
    let lower = picked_keys(table, marks, false, 0);
    let upper = picked_keys(table, marks, true, 0);
    let stack = initial_stack(graph, preferred);
    let order = flattened(graph, preferred);
    run_comes_out(graph, stack, Seq::empty());
    let sigs = signatures_of(order);
    assert forall|s: SignatureView| sigs.to_set().contains(s) <==> graph.dom().contains(s) by {
        if graph.contains_key(s) {
            let x = if preferred.contains(s) {
                assert(upper.to_set().contains(s));
                let u = choose|u: int| 0 <= u < upper.len() && upper[u] == s;
                lower.len() + u
            } else {
                assert(lower.to_set().contains(s));
                choose|u: int| 0 <= u < lower.len() && lower[u] == s
            };
            let k = choose|k: int| 0 <= k < order.len() && (#[trigger] order[k]).signature == stack[x];
            assert(sigs[k] == s);
        }
    }
}

} // verus!
