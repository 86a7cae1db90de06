//! The call graph of the methods and its flattening into one deterministic
//! order.

use regex::Regex;
use vstd::prelude::*;
use super::method::{
    method_views, sig_lt, sig_lt_asymmetric, sig_lt_irreflexive, sig_lt_total, sig_lt_transitive,
    Method, MethodView, Signature, SignatureView,
};
use super::order::{sorted_by, sorted_is_unique, strict_total, Rank};
use super::pattern::{any_match, some_match};
use crate::marks::{no_marks, unmarked, unmarked_after_mark};

verus! {

/// A method together with the signatures of the methods it calls, in the
/// order of the calls.
#[derive(Debug, PartialEq, Eq)]
pub struct CallNode {
    pub method: Method,
    pub calls: Vec<Signature>,
}

/// What a [`CallNode`] stands for.
pub struct CallNodeView {
    pub method: MethodView,
    pub calls: Seq<SignatureView>,
}

/// The signatures of a list as what they stand for.
pub open spec fn signature_views(list: Seq<Signature>) -> Seq<SignatureView> {
    Seq::new(list.len(), |i: int| list[i]@)
}

impl View for CallNode {
    type V = CallNodeView;

    open spec fn view(&self) -> CallNodeView {
        CallNodeView { method: self.method@, calls: signature_views(self.calls@) }
    }
}

/// The nodes of a list as what they stand for.
pub open spec fn node_views(nodes: Seq<CallNode>) -> Seq<CallNodeView> {
    Seq::new(nodes.len(), |i: int| nodes[i]@)
}

/// The call graph that a list of nodes gives: each node under the
/// signature of its method. Of two nodes with one signature the later
/// replaces the earlier.
pub open spec fn graph_of(nodes: Seq<CallNodeView>) -> Map<SignatureView, CallNodeView>
    decreases nodes.len(),
{
    if nodes.len() == 0 {
        Map::empty()
    } else {
        graph_of(nodes.drop_last()).insert(nodes.last().method.signature, nodes.last())
    }
}

/// The reverse of the order of signatures.
pub open spec fn signature_gt() -> spec_fn(SignatureView, SignatureView) -> bool {
    |a: SignatureView, b: SignatureView| sig_lt(b, a)
}

/// The signatures of a finite set in descending order.
pub open spec fn descending(keys: Set<SignatureView>) -> Seq<SignatureView> {
    choose|s: Seq<SignatureView>| sorted_by(signature_gt(), s) && s.to_set() == keys
}

/// The stack from which the flattening starts, its top being its end: all
/// signatures of the graph, those of `preferred` above the others, and
/// within both groups in descending order, so that the least is on top.
pub open spec fn initial_stack(
    graph: Map<SignatureView, CallNodeView>,
    preferred: Set<SignatureView>,
) -> Seq<SignatureView> {
    descending(graph.dom().difference(preferred)) + descending(graph.dom().intersect(preferred))
}

/// A sequence from its end to its start.
pub open spec fn backwards<T>(s: Seq<T>) -> Seq<T> {
    Seq::new(s.len(), |i: int| s[s.len() - 1 - i])
}

/// The methods that the traversal gives from the state it is in. The top
/// of the stack is taken off. If the graph still holds a node under it,
/// the node leaves the graph, its method is the next of the result, and the
/// signatures it calls go onto the stack, the first call on top. The
/// traversal ends with the stack.
pub open spec fn run(
    graph: Map<SignatureView, CallNodeView>,
    stack: Seq<SignatureView>,
    out: Seq<MethodView>,
) -> Seq<MethodView>
    decreases graph.dom().len(), stack.len(),
    when graph.dom().finite()
{
    if stack.len() == 0 {
        out
    } else {
        let top = stack.last();
        let rest = stack.drop_last();
        if graph.contains_key(top) {
            run(
                graph.remove(top),
                rest + backwards(graph[top].calls),
                out.push(graph[top].method),
            )
        } else {
            run(graph, rest, out)
        }
    }
}

/// The methods of the call graph in the order of the flattening.
pub open spec fn flattened(
    graph: Map<SignatureView, CallNodeView>,
    preferred: Set<SignatureView>,
) -> Seq<MethodView> {
    run(graph, initial_stack(graph, preferred), Seq::empty())
}

/// The signatures that the manifest marks: those whose class type some
/// of the expressions matches. Without expressions there are none.
pub open spec fn marked(regexes: Option<Seq<Regex>>) -> Set<SignatureView> {
    Set::new(
        |s: SignatureView|
            match regexes {
                Some(list) => some_match(list, s.class_type),
                None => false,
            },
    )
}

/// The expressions of an optional list.
pub open spec fn regex_list(regexes: Option<Vec<Regex>>) -> Option<Seq<Regex>> {
    match regexes {
        Some(list) => Some(list@),
        None => None,
    }
}

/// The signatures under which the nodes stand.
pub open spec fn keys(nodes: Seq<CallNodeView>) -> Seq<SignatureView> {
    Seq::new(nodes.len(), |i: int| nodes[i].method.signature)
}

/// The nodes are in ascending order of their signatures.
pub open spec fn ascending(nodes: Seq<CallNodeView>) -> bool {
    forall|i: int, j: int|
        0 <= i < j < nodes.len() ==> sig_lt(
            (#[trigger] nodes[i]).method.signature,
            (#[trigger] nodes[j]).method.signature,
        )
}

/// The node at position `i` stands under the signature `s`.
pub open spec fn node_at(nodes: Seq<CallNodeView>, i: int, s: SignatureView) -> bool {
    0 <= i < nodes.len() && nodes[i].method.signature == s
}

/// The graph holds a node under a signature exactly if the list has one.
pub proof fn graph_keys(nodes: Seq<CallNodeView>)
    ensures
        forall|s: SignatureView| #[trigger]
            graph_of(nodes).contains_key(s) <==> exists|i: int| node_at(nodes, i, s),
        graph_of(nodes).dom().finite(),
    decreases nodes.len(),
{
    if nodes.len() > 0 {
        let init = nodes.drop_last();
        graph_keys(init);
        assert forall|s: SignatureView| #[trigger]
            graph_of(nodes).contains_key(s) <==> exists|i: int| node_at(nodes, i, s) by {
            if graph_of(nodes).contains_key(s) {
                if s == nodes.last().method.signature {
                    assert(node_at(nodes, nodes.len() - 1, s));
                } else {
                    let i = choose|i: int| node_at(init, i, s);
                    assert(node_at(nodes, i, s));
                }
            }
            if exists|i: int| node_at(nodes, i, s) {
                let i = choose|i: int| node_at(nodes, i, s);
                if i < nodes.len() - 1 {
                    assert(node_at(init, i, s));
                }
            }
        }
    }
}

/// In ascending order every node is the one that the graph holds under
/// its signature.
pub proof fn graph_values(nodes: Seq<CallNodeView>)
    requires
        ascending(nodes),
    ensures
        forall|i: int|
            0 <= i < nodes.len() ==> graph_of(nodes).contains_key(
                (#[trigger] nodes[i]).method.signature,
            ) && graph_of(nodes)[nodes[i].method.signature] == nodes[i],
    decreases nodes.len(),
{
    if nodes.len() > 0 {
        let init = nodes.drop_last();
        let last = nodes.len() - 1;
        graph_values(init);
        assert forall|i: int| 0 <= i < nodes.len() implies graph_of(nodes).contains_key(
            (#[trigger] nodes[i]).method.signature,
        ) && graph_of(nodes)[nodes[i].method.signature] == nodes[i] by {
            if i < last {
                assert(init[i] == nodes[i]);
                sig_lt_asymmetric(nodes[i].method.signature, nodes[last].method.signature);
            }
        }
    }
}

/// Putting `node` at position `p` of an ascending list, in place of the
/// node with its signature or between its neighbours, keeps the list
/// ascending and inserts the node into the graph.
pub(crate) proof fn ascending_insert(
    before: Seq<CallNodeView>,
    after: Seq<CallNodeView>,
    p: int,
    node: CallNodeView,
)
    requires
        ascending(before),
        0 <= p <= before.len(),
        forall|i: int|
            0 <= i < p ==> sig_lt((#[trigger] before[i]).method.signature, node.method.signature),
        forall|i: int|
            p <= i < before.len() ==> !sig_lt(
                (#[trigger] before[i]).method.signature,
                node.method.signature,
            ),
        (p < before.len() && before[p].method.signature == node.method.signature && after
            == before.update(p, node)) || ((p == before.len() || before[p].method.signature
            != node.method.signature) && after == before.insert(p, node)),
    ensures
        ascending(after),
        graph_of(after) == graph_of(before).insert(node.method.signature, node),
{
    let key = node.method.signature;
    let replaced = after.len() == before.len();
    assert forall|i: int| p <= i < before.len() && before[i].method.signature != key implies sig_lt(
        key,
        (#[trigger] before[i]).method.signature,
    ) by {
        sig_lt_total(key, before[i].method.signature);
    }
    graph_keys(before);
    graph_keys(after);
    graph_values(before);
    graph_values(after);
    let target = graph_of(before).insert(key, node);
    assert forall|s: SignatureView| graph_of(after).contains_key(s) implies target.contains_key(s)
        && target[s] == #[trigger] graph_of(after)[s] by {
        let i = choose|i: int| node_at(after, i, s);
        if i != p {
            assert(s != key) by {
                if i < p {
                    sig_lt_asymmetric(after[i].method.signature, after[p].method.signature);
                } else {
                    sig_lt_asymmetric(after[p].method.signature, after[i].method.signature);
                }
            }
        }
    }
    assert forall|s: SignatureView| target.contains_key(s) implies #[trigger] graph_of(
        after,
    ).contains_key(s) by {
        if s != key {
            let bi = choose|bi: int| node_at(before, bi, s);
            let i = if replaced || bi < p { bi } else { bi + 1 };
            assert(node_at(after, i, s));
        }
    }
}

/// Position of the first node of `table` whose signature is not below `sig`,
/// and whether that node has the signature `sig`.
fn find_node(table: &Vec<CallNode>, sig: &Signature) -> (r: (usize, bool))
    requires
        ascending(node_views(table@)),
    ensures
        r.0 <= table@.len(),
        forall|i: int| 0 <= i < r.0 ==> sig_lt((#[trigger] table@[i]).method.signature@, sig@),
        forall|i: int|
            r.0 <= i < table@.len() ==> !sig_lt((#[trigger] table@[i]).method.signature@, sig@),
        r.1 == (r.0 < table@.len() && table@[r.0 as int].method.signature@ == sig@),
{
    let ghost nodes = node_views(table@);
    let mut low: usize = 0;
    let mut high: usize = table.len();
    while low < high
        invariant
            nodes == node_views(table@),
            ascending(nodes),
            low <= high <= table@.len(),
            forall|i: int| 0 <= i < low ==> sig_lt((#[trigger] table@[i]).method.signature@, sig@),
            forall|i: int|
                high <= i < table@.len() ==> !sig_lt((#[trigger] table@[i]).method.signature@, sig@),
        decreases high - low,
    {
        let mid = low + (high - low) / 2;
        match table[mid].method.signature.compare(sig) {
            Rank::Before => {
                assert forall|i: int| 0 <= i < mid + 1 implies sig_lt(
                    (#[trigger] table@[i]).method.signature@,
                    sig@,
                ) by {
                    if i < mid {
                        sig_lt_transitive(
                            nodes[i].method.signature,
                            nodes[mid as int].method.signature,
                            sig@,
                        );
                    }
                }
                low = mid + 1;
            },
            _ => {
                assert forall|i: int| mid <= i < table@.len() implies !sig_lt(
                    (#[trigger] table@[i]).method.signature@,
                    sig@,
                ) by {
                    if i > mid {
                        if sig_lt(nodes[i].method.signature, sig@) {
                            sig_lt_transitive(
                                nodes[mid as int].method.signature,
                                nodes[i].method.signature,
                                sig@,
                            );
                        }
                    }
                }
                high = mid;
            },
        }
    }
    if low < table.len() {
        match table[low].method.signature.compare(sig) {
            Rank::Same => (low, true),
            _ => (low, false),
        }
    } else {
        (low, false)
    }
}

/// A list from its end to its start.
pub(crate) fn reversed<T>(mut list: Vec<T>) -> (r: Vec<T>)
    ensures
        r@ == backwards(list@),
{
    let ghost whole = list@;
    let mut out: Vec<T> = Vec::new();
    while list.len() > 0
        invariant
            list@.len() + out@.len() == whole.len(),
            list@ == whole.take(list@.len() as int),
            forall|k: int| 0 <= k < out@.len() ==> out@[k] == whole[whole.len() - 1 - k],
        decreases list@.len(),
    {
        let x = list.pop().unwrap();
        out.push(x);
    }
    out
}

/// The nodes in ascending order of their signatures, one for each
/// signature: of several nodes with one signature the last.
fn sorted_table(nodes: Vec<CallNode>) -> (table: Vec<CallNode>)
    ensures
        ascending(node_views(table@)),
        graph_of(node_views(table@)) == graph_of(node_views(nodes@)),
{
    let ghost input = node_views(nodes@);
    let mut rest = reversed(nodes);
    let mut table: Vec<CallNode> = Vec::new();
    let ghost mut done: int = 0;
    while rest.len() > 0
        invariant
            0 <= done <= input.len(),
            rest@.len() + done == input.len(),
            forall|k: int| 0 <= k < rest@.len() ==> (#[trigger] rest@[k])@ == input[input.len() - 1 - k],
            ascending(node_views(table@)),
            graph_of(node_views(table@)) == graph_of(input.take(done)),
        decreases rest@.len(),
    {
        let node = rest.pop().unwrap();
        let ghost before = node_views(table@);
        let (p, found) = find_node(&table, &node.method.signature);
        let ghost view = node@;
        if found {
            table.set(p, node);
            assert(node_views(table@) =~= before.update(p as int, view));
        } else {
            table.insert(p, node);
            assert(node_views(table@) =~= before.insert(p as int, view));
        }
        proof {
            ascending_insert(before, node_views(table@), p as int, view);
            assert(input.take(done + 1).drop_last() =~= input.take(done));
            done = done + 1;
        }
    }
    assert(input.take(done) =~= input);
    table
}

/// What an entry of the stack stands for: the node at a position of the
/// table, or a signature under which the graph holds no node.
spec fn link(nodes: Seq<CallNodeView>, entry: Option<usize>, s: SignatureView) -> bool {
    match entry {
        Some(x) => node_at(nodes, x as int, s),
        None => !graph_of(nodes).contains_key(s),
    }
}

/// Every entry stands for the signature at its place.
spec fn linked(nodes: Seq<CallNodeView>, entries: Seq<Option<usize>>, sigs: Seq<SignatureView>) -> bool {
    &&& entries.len() == sigs.len()
    &&& forall|k: int| 0 <= k < entries.len() ==> link(nodes, #[trigger] entries[k], sigs[k])
}

/// The calls of every node, resolved to positions of the table.
spec fn resolved_calls(nodes: Seq<CallNodeView>, resolved: Seq<Vec<Option<usize>>>) -> bool {
    &&& resolved.len() == nodes.len()
    &&& forall|i: int|
        0 <= i < nodes.len() ==> linked(nodes, (#[trigger] resolved[i])@, nodes[i].calls)
}

/// Looks every call of every node up in the table.
fn resolve_calls(table: &Vec<CallNode>) -> (resolved: Vec<Vec<Option<usize>>>)
    requires
        ascending(node_views(table@)),
    ensures
        resolved_calls(node_views(table@), resolved@),
{
    let ghost nodes = node_views(table@);
    proof {
        graph_keys(nodes);
    }
    let mut resolved: Vec<Vec<Option<usize>>> = Vec::new();
    let mut i: usize = 0;
    while i < table.len()
        invariant
            i <= table@.len(),
            nodes == node_views(table@),
            ascending(nodes),
            resolved@.len() == i,
            forall|s: SignatureView| #[trigger]
                graph_of(nodes).contains_key(s) <==> exists|x: int| node_at(nodes, x, s),
            forall|k: int| 0 <= k < i ==> linked(nodes, (#[trigger] resolved@[k])@, nodes[k].calls),
        decreases table.len() - i,
    {
        let mut row: Vec<Option<usize>> = Vec::new();
        let mut j: usize = 0;
        while j < table[i].calls.len()
            invariant
                i < table@.len(),
                j <= table@[i as int].calls@.len(),
                nodes == node_views(table@),
                ascending(nodes),
                row@.len() == j,
                forall|s: SignatureView| #[trigger]
                    graph_of(nodes).contains_key(s) <==> exists|x: int| node_at(nodes, x, s),
                forall|k: int| 0 <= k < j ==> link(nodes, #[trigger] row@[k], nodes[i as int].calls[k]),
            decreases table[i as int].calls.len() - j,
        {
            let (p, found) = find_node(table, &table[i].calls[j]);
            let ghost s = nodes[i as int].calls[j as int];
            if found {
                row.push(Some(p));
            } else {
                proof {
                    if graph_of(nodes).contains_key(s) {
                        let x = choose|x: int| node_at(nodes, x, s);
                        sig_lt_irreflexive(s);
                        if x >= p {
                            assert(sig_lt(nodes[p as int].method.signature, nodes[x].method.signature));
                        }
                    }
                }
                row.push(None);
            }
            j += 1;
        }
        resolved.push(row);
        i += 1;
    }
    resolved
}

/// The nodes of the graph that have not left it yet.
spec fn remaining(nodes: Seq<CallNodeView>, emitted: Seq<bool>) -> Map<SignatureView, CallNodeView> {
    Map::new(
        |s: SignatureView| exists|i: int| node_at(nodes, i, s) && !emitted[i],
        |s: SignatureView| graph_of(nodes)[s],
    )
}

/// The remaining nodes are finitely many.
proof fn remaining_is_finite(nodes: Seq<CallNodeView>, emitted: Seq<bool>)
    ensures
        remaining(nodes, emitted).dom().finite(),
{
    graph_keys(nodes);
    let whole = graph_of(nodes).dom();
    let part = remaining(nodes, emitted).dom();
    vstd::set_lib::lemma_len_subset(part, whole);
}

/// Before any node has left, the whole graph remains.
proof fn remaining_at_start(nodes: Seq<CallNodeView>, emitted: Seq<bool>)
    requires
        forall|i: int| 0 <= i < nodes.len() ==> !(#[trigger] emitted[i]),
    ensures
        remaining(nodes, emitted) == graph_of(nodes),
{
    graph_keys(nodes);
    assert forall|s: SignatureView| remaining(nodes, emitted).contains_key(s) <==> graph_of(
        nodes,
    ).contains_key(s) by {
        if graph_of(nodes).contains_key(s) {
            let i = choose|i: int| node_at(nodes, i, s);
            assert(node_at(nodes, i, s) && !emitted[i]);
        }
    }
}

/// A node remains until it has left, and leaving takes it out of what remains.
proof fn remaining_lookup(nodes: Seq<CallNodeView>, emitted: Seq<bool>, i: int)
    requires
        ascending(nodes),
        0 <= i < nodes.len(),
        emitted.len() == nodes.len(),
    ensures
        remaining(nodes, emitted).contains_key(nodes[i].method.signature) == !emitted[i],
        !emitted[i] ==> remaining(nodes, emitted)[nodes[i].method.signature] == nodes[i],
        !emitted[i] ==> remaining(nodes, emitted.update(i, true)) == remaining(
            nodes,
            emitted,
        ).remove(nodes[i].method.signature),
{
    let s = nodes[i].method.signature;
    graph_values(nodes);
    assert forall|x: int| node_at(nodes, x, s) implies x == i by {
        if x < i {
            sig_lt_asymmetric(nodes[x].method.signature, nodes[i].method.signature);
        }
        if i < x {
            sig_lt_asymmetric(nodes[i].method.signature, nodes[x].method.signature);
        }
    }
    if !emitted[i] {
        let after = emitted.update(i, true);
        assert forall|t: SignatureView| remaining(nodes, after).contains_key(t) <==> remaining(
            nodes,
            emitted,
        ).remove(s).contains_key(t) by {
            if remaining(nodes, emitted).remove(s).contains_key(t) {
                let x = choose|x: int| node_at(nodes, x, t) && !emitted[x];
                assert(node_at(nodes, x, t) && !after[x]);
            }
        }
    }
}

/// A signature without a node in the graph has none among the remaining.
proof fn remaining_lacks(nodes: Seq<CallNodeView>, emitted: Seq<bool>, s: SignatureView)
    requires
        !graph_of(nodes).contains_key(s),
    ensures
        !remaining(nodes, emitted).contains_key(s),
{
    graph_keys(nodes);
}

/// A method without anything in it, to stand where a method has left the table.
fn no_method() -> (m: Method)
    ensures
        m@ == (MethodView {
            signature: SignatureView {
                class_type: Seq::empty(),
                method_name: Seq::empty(),
                params: None,
                return_type: Seq::empty(),
            },
            insns: Seq::empty(),
        }),
{
    Method {
        signature: Signature {
            class_type: String::new(),
            method_name: String::new(),
            params: None,
            return_type: String::new(),
        },
        insns: Vec::new(),
    }
}

/// Runs the traversal from the stack `stack`, which stands for `sigs`.
fn traverse(
    table: Vec<CallNode>,
    resolved: Vec<Vec<Option<usize>>>,
    stack: Vec<Option<usize>>,
    Ghost(sigs): Ghost<Seq<SignatureView>>,
) -> (out: Vec<Method>)
    requires
        ascending(node_views(table@)),
        resolved_calls(node_views(table@), resolved@),
        linked(node_views(table@), stack@, sigs),
    ensures
        method_views(out@) == run(graph_of(node_views(table@)), sigs, Seq::empty()),
{
    let ghost nodes = node_views(table@);
    let n = table.len();
    let mut table = table;
    let mut stack = stack;
    let mut out: Vec<Method> = Vec::new();
    let mut emitted = no_marks(n);
    let ghost mut pending = sigs;
    proof {
        remaining_at_start(nodes, emitted@);
        assert(method_views(out@) =~= Seq::empty());
    }
    while stack.len() > 0
        invariant
            n == nodes.len(),
            table@.len() == n,
            emitted@.len() == n,
            ascending(nodes),
            resolved_calls(nodes, resolved@),
            linked(nodes, stack@, pending),
            forall|k: int| 0 <= k < n && !emitted@[k] ==> (#[trigger] table@[k]).method@ == nodes[k].method,
            run(remaining(nodes, emitted@), pending, method_views(out@)) == run(
                graph_of(nodes),
                sigs,
                Seq::empty(),
            ),
        decreases unmarked(emitted@), stack@.len(),
    {
        let ghost before_stack = stack@;
        let ghost before_pending = pending;
        let ghost before_out = method_views(out@);
        let top = stack.pop().unwrap();
        proof {
            remaining_is_finite(nodes, emitted@);
            pending = before_pending.drop_last();
        }
        match top {
            None => {
                proof {
                    remaining_lacks(nodes, emitted@, before_pending.last());
                }
            },
            Some(x) => {
                proof {
                    remaining_lookup(nodes, emitted@, x as int);
                }
                if !emitted[x] {
                    proof {
                        unmarked_after_mark(emitted@, x as int);
                    }
                    emitted.set(x, true);
                    let mut method = no_method();
                    core::mem::swap(&mut table[x].method, &mut method);
                    out.push(method);
                    assert(method_views(out@) =~= before_out.push(nodes[x as int].method));
                    let ghost calls = nodes[x as int].calls;
                    let ghost base = pending;
                    let mut j: usize = resolved[x].len();
                    while j > 0
                        invariant
                            x < n,
                            resolved@.len() == n,
                            j <= resolved@[x as int]@.len(),
                            resolved@[x as int]@.len() == calls.len(),
                            linked(nodes, resolved@[x as int]@, calls),
                            pending == base + backwards(calls).take(calls.len() - j),
                            linked(nodes, stack@, pending),
                        decreases j,
                    {
                        j -= 1;
                        let ghost old_stack = stack@;
                        let ghost old_pending = pending;
                        stack.push(resolved[x][j]);
                        proof {
                            pending = old_pending.push(calls[j as int]);
                            assert(backwards(calls).take(calls.len() - j) =~= backwards(calls).take(
                                calls.len() - j - 1,
                            ).push(calls[j as int]));
                        }
                    }
                    assert(backwards(calls).take(calls.len() as int) =~= backwards(calls));
                }
            },
        }
    }
    proof {
        remaining_is_finite(nodes, emitted@);
    }
    out
}

/// The matches of the expressions against the class type of every node.
fn marks_of(table: &Vec<CallNode>, regexes: &Option<Vec<Regex>>) -> (marks: Vec<bool>)
    ensures
        marks@.len() == table@.len(),
        forall|i: int|
            0 <= i < table@.len() ==> #[trigger] marks@[i] == marked(regex_list(*regexes)).contains(
                table@[i].method.signature@,
            ),
{
    let mut marks: Vec<bool> = Vec::new();
    let mut i: usize = 0;
    while i < table.len()
        invariant
            i <= table@.len(),
            marks@.len() == i,
            forall|k: int|
                0 <= k < i ==> #[trigger] marks@[k] == marked(regex_list(*regexes)).contains(
                    table@[k].method.signature@,
                ),
        decreases table.len() - i,
    {
        let hit = match regexes {
            Some(list) => any_match(list, table[i].method.signature.class_type.as_str()),
            None => false,
        };
        marks.push(hit);
        i += 1;
    }
    marks
}

/// The positions from `from` on whose mark is `wanted`, from the last down.
pub(crate) open spec fn picks(marks: Seq<bool>, wanted: bool, from: int) -> Seq<int>
    decreases marks.len() - from,
{
    if from >= marks.len() || from < 0 {
        Seq::empty()
    } else if marks[from] == wanted {
        picks(marks, wanted, from + 1).push(from)
    } else {
        picks(marks, wanted, from + 1)
    }
}

/// The picked positions are those with the wanted mark, in descending order.
pub(crate) proof fn picks_are_descending(marks: Seq<bool>, wanted: bool, from: int)
    requires
        0 <= from,
    ensures
        forall|k: int|
            0 <= k < picks(marks, wanted, from).len() ==> from <= (#[trigger] picks(
                marks,
                wanted,
                from,
            )[k]) < marks.len() && marks[picks(marks, wanted, from)[k]] == wanted,
        forall|k: int, l: int|
            0 <= k < l < picks(marks, wanted, from).len() ==> picks(marks, wanted, from)[k] > picks(
                marks,
                wanted,
                from,
            )[l],
        forall|x: int|
            from <= x < marks.len() && marks[x] == wanted ==> picks(marks, wanted, from).contains(x),
    decreases marks.len() - from,
{
    if from < marks.len() {
        picks_are_descending(marks, wanted, from + 1);
        let rest = picks(marks, wanted, from + 1);
        let all = picks(marks, wanted, from);
        assert forall|x: int| from <= x < marks.len() && marks[x] == wanted implies all.contains(
            x,
        ) by {
            if x == from {
                assert(all[all.len() - 1] == x);
            } else {
                let k = choose|k: int| 0 <= k < rest.len() && rest[k] == x;
                assert(all[k] == x);
            }
        }
    }
}

/// The signatures at the picked positions.
pub(crate) open spec fn picked_keys(nodes: Seq<CallNodeView>, marks: Seq<bool>, wanted: bool, from: int) -> Seq<
    SignatureView,
> {
    Seq::new(
        picks(marks, wanted, from).len(),
        |k: int| nodes[picks(marks, wanted, from)[k]].method.signature,
    )
}

/// The picked signatures are the signatures of the graph with the wanted
/// mark, in descending order.
pub(crate) proof fn picked_keys_are_descending(
    nodes: Seq<CallNodeView>,
    marks: Seq<bool>,
    wanted: bool,
    preferred: Set<SignatureView>,
)
    requires
        ascending(nodes),
        marks.len() == nodes.len(),
        forall|i: int|
            0 <= i < nodes.len() ==> #[trigger] marks[i] == preferred.contains(
                nodes[i].method.signature,
            ),
    ensures
        picked_keys(nodes, marks, wanted, 0) == descending(
            if wanted {
                graph_of(nodes).dom().intersect(preferred)
            } else {
                graph_of(nodes).dom().difference(preferred)
            },
        ),
        picked_keys(nodes, marks, wanted, 0).to_set() == (if wanted {
            graph_of(nodes).dom().intersect(preferred)
        } else {
            graph_of(nodes).dom().difference(preferred)
        }),
{
    let keys = if wanted {
        graph_of(nodes).dom().intersect(preferred)
    } else {
        graph_of(nodes).dom().difference(preferred)
    };
    let found = picked_keys(nodes, marks, wanted, 0);
    let at = picks(marks, wanted, 0);
    picks_are_descending(marks, wanted, 0);
    graph_keys(nodes);
    assert forall|s: SignatureView| found.to_set().contains(s) <==> keys.contains(s) by {
        if found.contains(s) {
            let k = choose|k: int| 0 <= k < found.len() && found[k] == s;
            assert(node_at(nodes, at[k], s));
        }
        if keys.contains(s) {
            let i = choose|i: int| node_at(nodes, i, s);
            assert(marks[i] == wanted);
            let k = choose|k: int| 0 <= k < at.len() && at[k] == i;
            assert(found[k] == s);
        }
    }
    assert(found.to_set() =~= keys);
    let chosen = descending(keys);
    assert(strict_total(signature_gt())) by {
        let gt = signature_gt();
        assert forall|x: SignatureView| !#[trigger] gt(x, x) by {
            sig_lt_irreflexive(x);
        }
        assert forall|x: SignatureView, y: SignatureView, z: SignatureView| #[trigger]
            gt(x, y) && #[trigger] gt(y, z) implies gt(x, z) by {
            sig_lt_transitive(z, y, x);
        }
        assert forall|x: SignatureView, y: SignatureView| #[trigger] gt(x, y) || x == y || gt(y, x) by {
            sig_lt_total(x, y);
        }
    }
    sorted_is_unique(signature_gt(), found, chosen);
}

/// Puts the positions with the mark `wanted` onto the stack, the last
/// position first.
fn push_marked(
    stack: &mut Vec<Option<usize>>,
    marks: &Vec<bool>,
    wanted: bool,
    Ghost(nodes): Ghost<Seq<CallNodeView>>,
    Ghost(sigs): Ghost<Seq<SignatureView>>,
)
    requires
        marks@.len() == nodes.len(),
        linked(nodes, old(stack)@, sigs),
    ensures
        linked(nodes, final(stack)@, sigs + picked_keys(nodes, marks@, wanted, 0)),
{
    let n = marks.len();
    let mut i: usize = n;
    while i > 0
        invariant
            i <= n,
            n == marks@.len(),
            n == nodes.len(),
            linked(nodes, stack@, sigs + picked_keys(nodes, marks@, wanted, i as int)),
        decreases i,
    {
        i -= 1;
        let ghost old_stack = stack@;
        let ghost old_sigs = sigs + picked_keys(nodes, marks@, wanted, i + 1);
        if marks[i] == wanted {
            stack.push(Some(i));
        }
    }
}

/// The methods of the call graph that `nodes` give, in the order of a
/// depth-first traversal. The traversal starts from all signatures of the
/// graph, those first whose class type one of `regexes` matches and
/// within both groups the lesser signature first; it goes on from each
/// method to the methods it calls, in the order of the calls, before it
/// takes up the next. Every method is in the result once.
pub fn flatten(nodes: Vec<CallNode>, regexes: Option<Vec<Regex>>) -> (out: Vec<Method>)
    ensures
        method_views(out@) == flattened(graph_of(node_views(nodes@)), marked(regex_list(regexes))),
{
    let table = sorted_table(nodes);
    let resolved = resolve_calls(&table);
    let marks = marks_of(&table, &regexes);
    let ghost views = node_views(table@);
    let mut stack: Vec<Option<usize>> = Vec::new();
    push_marked(&mut stack, &marks, false, Ghost(views), Ghost(Seq::empty()));
    let ghost lower = Seq::<SignatureView>::empty() + picked_keys(views, marks@, false, 0);
    push_marked(&mut stack, &marks, true, Ghost(views), Ghost(lower));
    proof {
        picked_keys_are_descending(views, marks@, false, marked(regex_list(regexes)));
        picked_keys_are_descending(views, marks@, true, marked(regex_list(regexes)));
    }
    traverse(table, resolved, stack, Ghost(lower + picked_keys(views, marks@, true, 0)))
}

} // verus!
