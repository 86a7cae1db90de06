//! The opcode sequence of the methods and their bounds in it.

use vstd::prelude::*;
use super::traversal::{flatten_graph_dfs, post_order, rows};
use crate::dex::file::{decode_file, file_nodes, DexFile};
use crate::dex::flatten::{node_views, signature_views, CallNode, CallNodeView};
use crate::dex::method::{opcode_bytes, opcodes_of, Signature, SignatureView};
use crate::dex::order::Rank;

verus! {

/// The first and the last position of a method in the opcode sequence.
pub type MethodBound = (usize, usize);

/// The opcodes of the methods of an application as one sequence.
#[derive(Debug, Default, PartialEq, Eq)]
pub struct DexParseModel {
    /// The opcode bytes of the methods, method after method, in the order
    /// of the traversal.
    pub op_seq: Vec<u8>,
    /// The bounds that each method had in the sequence as it was collected,
    /// in the order of the traversal.
    pub method_bounds: Vec<MethodBound>,
}

/// What has been collected from some methods: the positions of the
/// methods that were taken, the number of their opcodes, and whether the
/// cap has stopped the collection.
pub struct Collected {
    pub taken: Seq<int>,
    pub used: nat,
    pub stopped: bool,
}

/// What is collected from the first `k` of `nodes` when `base` opcodes are
/// there already. A method without instructions is passed over. With a cap
/// above zero, the first method that would take the sequence beyond the
/// cap stops the collection; a cap of zero is no cap.
pub open spec fn collect(nodes: Seq<CallNodeView>, cap: usize, base: nat, k: nat) -> Collected
    decreases k,
{
    if k == 0 {
        Collected { taken: Seq::empty(), used: 0, stopped: false }
    } else {
        let before = collect(nodes, cap, base, (k - 1) as nat);
        let len = nodes[k - 1].method.insns.len();
        if before.stopped || len == 0 {
            before
        } else if cap > 0 && base + before.used + len > cap {
            Collected { stopped: true, ..before }
        } else {
            Collected { taken: before.taken.push(k - 1), used: before.used + len, stopped: false }
        }
    }
}

/// The opcode bytes of the methods at the positions `taken`.
pub open spec fn ops_of(nodes: Seq<CallNodeView>, taken: Seq<int>) -> Seq<u8>
    decreases taken.len(),
{
    if taken.len() == 0 {
        Seq::empty()
    } else {
        ops_of(nodes, taken.drop_last()) + opcode_bytes(nodes[taken.last()].method.insns)
    }
}

/// The bounds of the methods at the positions `taken` in a sequence that
/// holds `base` opcodes before them.
pub open spec fn bounds_of(nodes: Seq<CallNodeView>, taken: Seq<int>, base: nat) -> Seq<MethodBound>
    decreases taken.len(),
{
    if taken.len() == 0 {
        Seq::empty()
    } else {
        let start = base + ops_of(nodes, taken.drop_last()).len();
        let len = nodes[taken.last()].method.insns.len();
        bounds_of(nodes, taken.drop_last(), base).push(
            (start as usize, (start + len - 1) as usize),
        )
    }
}

/// Where among the first `k` taken methods the first one with the
/// signature `s` stands.
pub open spec fn first_with(nodes: Seq<CallNodeView>, taken: Seq<int>, s: SignatureView, k: nat) -> Option<
    int,
>
    decreases k,
{
    if k == 0 {
        None
    } else {
        match first_with(nodes, taken, s, (k - 1) as nat) {
            Some(j) => Some(j),
            None => if nodes[taken[k - 1]].method.signature == s {
                Some(k - 1)
            } else {
                None
            },
        }
    }
}

/// The numbers of the taken methods that the calls lead to, in the order
/// of the calls. The taken methods are numbered from `first` on. A call of
/// a method that was not taken is left out.
pub open spec fn targets_of(
    nodes: Seq<CallNodeView>,
    taken: Seq<int>,
    first: nat,
    calls: Seq<SignatureView>,
) -> Seq<usize>
    decreases calls.len(),
{
    if calls.len() == 0 {
        Seq::empty()
    } else {
        let rest = targets_of(nodes, taken, first, calls.drop_last());
        match first_with(nodes, taken, calls.last(), taken.len()) {
            Some(j) => rest.push((first + j) as usize),
            None => rest,
        }
    }
}

/// The edges of the first `k` taken methods.
pub open spec fn edges_of(nodes: Seq<CallNodeView>, taken: Seq<int>, first: nat, k: nat) -> Seq<
    Seq<usize>,
>
    decreases k,
{
    if k == 0 {
        Seq::empty()
    } else {
        edges_of(nodes, taken, first, (k - 1) as nat).push(
            targets_of(nodes, taken, first, nodes[taken[k - 1]].calls),
        )
    }
}

/// The opcode sequence, the bounds and the edges of the methods collected
/// so far.
pub struct Gathered {
    pub ops: Seq<u8>,
    pub bounds: Seq<MethodBound>,
    pub edges: Seq<Seq<usize>>,
}

/// What the methods of one file add to what is there.
pub open spec fn with_file(before: Gathered, nodes: Seq<CallNodeView>, cap: usize) -> Gathered {
    let taken = collect(nodes, cap, before.ops.len(), nodes.len()).taken;
    Gathered {
        ops: before.ops + ops_of(nodes, taken),
        bounds: before.bounds + bounds_of(nodes, taken, before.ops.len()),
        edges: before.edges + edges_of(nodes, taken, before.bounds.len(), taken.len()),
    }
}

/// What the first `k` files give. A file is passed over once the sequence
/// has reached the cap.
pub open spec fn gathered(files: Seq<DexFile>, cap: usize, k: nat) -> Gathered
    decreases k,
{
    if k == 0 {
        Gathered { ops: Seq::empty(), bounds: Seq::empty(), edges: Seq::empty() }
    } else {
        let before = gathered(files, cap, (k - 1) as nat);
        if cap > 0 && before.ops.len() >= cap {
            before
        } else {
            with_file(before, file_nodes(files[k - 1], files[k - 1].classes@.len()), cap)
        }
    }
}

/// The bounds of the methods with the first `k` of the numbers `order`. A
/// number that is no method is passed over.
pub open spec fn picked(bounds: Seq<MethodBound>, order: Seq<usize>, k: nat) -> Seq<MethodBound>
    decreases k,
{
    if k == 0 {
        Seq::empty()
    } else {
        let rest = picked(bounds, order, (k - 1) as nat);
        if order[k - 1] < bounds.len() {
            rest.push(bounds[order[k - 1] as int])
        } else {
            rest
        }
    }
}

/// The pieces of `ops` within the first `k` of `bounds`, one after the
/// other. Bounds that do not lie within `ops` give nothing.
pub open spec fn reordered(ops: Seq<u8>, bounds: Seq<MethodBound>, k: nat) -> Seq<u8>
    decreases k,
{
    if k == 0 {
        Seq::empty()
    } else {
        let rest = reordered(ops, bounds, (k - 1) as nat);
        let (start, end) = bounds[k - 1];
        if start <= end < ops.len() {
            rest + ops.subrange(start as int, end + 1)
        } else {
            rest
        }
    }
}

/// Where among the taken methods the first one with the signature `sig`
/// stands.
fn find_taken(
    nodes: &Vec<CallNode>,
    taken: &Vec<usize>,
    sig: &Signature,
    Ghost(positions): Ghost<Seq<int>>,
) -> (r: Option<usize>)
    requires
        positions.len() == taken@.len(),
        forall|i: int|
            0 <= i < taken@.len() ==> (#[trigger] taken@[i]) == positions[i] && taken@[i]
                < nodes@.len(),
    ensures
        match r {
            Some(j) => first_with(node_views(nodes@), positions, sig@, taken@.len() as nat) == Some(
                j as int,
            ) && j < taken@.len(),
            None => first_with(node_views(nodes@), positions, sig@, taken@.len() as nat) is None,
        },
{
    let mut j: usize = 0;
    while j < taken.len()
        invariant
            j <= taken@.len(),
            positions.len() == taken@.len(),
            forall|i: int|
                0 <= i < taken@.len() ==> (#[trigger] taken@[i]) == positions[i] && taken@[i]
                    < nodes@.len(),
            first_with(node_views(nodes@), positions, sig@, j as nat) is None,
        decreases taken.len() - j,
    {
        match nodes[taken[j]].method.signature.compare(sig) {
            Rank::Same => {
                proof {
                    first_stays(node_views(nodes@), positions, sig@, (j + 1) as nat, taken@.len() as nat);
                }
                return Some(j);
            },
            _ => {},
        }
        j += 1;
    }
    None
}

/// Once a method with the signature is found, it stays the first.
proof fn first_stays(nodes: Seq<CallNodeView>, taken: Seq<int>, s: SignatureView, k: nat, n: nat)
    requires
        k <= n,
        first_with(nodes, taken, s, k) is Some,
    ensures
        first_with(nodes, taken, s, n) == first_with(nodes, taken, s, k),
    decreases n - k,
{
    if k < n {
        first_stays(nodes, taken, s, k, (n - 1) as nat);
    }
}

impl DexParseModel {
    /// Collects the methods of one file: their opcodes go to the end of
    /// `op_seq`, and each method that is taken gets its bounds and its
    /// edges to the taken methods of the file that it calls.
    pub fn get_op_seq(
        nodes: &Vec<CallNode>,
        sequence_cap: usize,
        op_seq: &mut Vec<u8>,
        method_bounds: &mut Vec<MethodBound>,
        edges: &mut Vec<Vec<usize>>,
    )
        requires
            old(method_bounds)@.len() == old(edges)@.len(),
        ensures
            final(method_bounds)@.len() == final(edges)@.len(),
            (Gathered {
                ops: final(op_seq)@,
                bounds: final(method_bounds)@,
                edges: rows(final(edges)@),
            }) == with_file(
                Gathered {
                    ops: old(op_seq)@,
                    bounds: old(method_bounds)@,
                    edges: rows(old(edges)@),
                },
                node_views(nodes@),
                sequence_cap,
            ),
    {
        let ghost views = node_views(nodes@);
        let ghost ops0 = op_seq@;
        let ghost bounds0 = method_bounds@;
        let ghost edges0 = rows(edges@);
        let ghost base = op_seq@.len();
        let first = method_bounds.len();
        let mut taken: Vec<usize> = Vec::new();
        let ghost mut positions: Seq<int> = Seq::empty();
        let mut stopped = false;
        let mut k: usize = 0;
        while k < nodes.len() && !stopped
            invariant
                k <= nodes@.len(),
                views == node_views(nodes@),
                base == ops0.len(),
                positions.len() == taken@.len(),
                forall|i: int|
                    0 <= i < taken@.len() ==> (#[trigger] taken@[i]) == positions[i] && taken@[i]
                        < nodes@.len(),
                collect(views, sequence_cap, base, k as nat) == (Collected {
                    taken: positions,
                    used: ops_of(views, positions).len(),
                    stopped,
                }),
                op_seq@ == ops0 + ops_of(views, positions),
                method_bounds@ == bounds0 + bounds_of(views, positions, base),
                method_bounds@.len() == first + taken@.len(),
            decreases nodes.len() - k,
        {
            let len = nodes[k].method.insns.len();
            if len > 0 {
                let over = sequence_cap > 0 && (op_seq.len() > sequence_cap || len > sequence_cap
                    - op_seq.len());
                if over {
                    stopped = true;
                } else {
                    let start = op_seq.len();
                    let mut bytes = opcodes_of(&nodes[k].method.insns);
                    op_seq.append(&mut bytes);
                    method_bounds.push((start, op_seq.len() - 1));
                    taken.push(k);
                    proof {
                        let before = positions;
                        positions = before.push(k as int);
                        assert(positions.drop_last() =~= before);
                    }
                }
            }
            k += 1;
        }
        proof {
            collect_stays(views, sequence_cap, base, k as nat, nodes@.len() as nat, stopped);
        }
        let total = method_bounds.len();
        let mut i: usize = 0;
        while i < taken.len()
            invariant
                i <= taken@.len(),
                views == node_views(nodes@),
                positions.len() == taken@.len(),
                forall|x: int|
                    0 <= x < taken@.len() ==> (#[trigger] taken@[x]) == positions[x] && taken@[x]
                        < nodes@.len(),
                first + taken@.len() == total,
                rows(edges@) == edges0 + edges_of(views, positions, first as nat, i as nat),
                edges@.len() == first + i,
            decreases taken.len() - i,
        {
            let node = &nodes[taken[i]];
            let ghost calls = views[positions[i as int]].calls;
            let mut row: Vec<usize> = Vec::new();
            let mut c: usize = 0;
            while c < node.calls.len()
                invariant
                    c <= node.calls@.len(),
                    views == node_views(nodes@),
                    calls == signature_views(node.calls@),
                    positions.len() == taken@.len(),
                    forall|x: int|
                        0 <= x < taken@.len() ==> (#[trigger] taken@[x]) == positions[x]
                            && taken@[x] < nodes@.len(),
                    first + taken@.len() == total,
                    row@ == targets_of(views, positions, first as nat, calls.take(c as int)),
                decreases node.calls.len() - c,
            {
                assert(calls.take(c + 1).drop_last() =~= calls.take(c as int));
                if let Some(j) = find_taken(nodes, &taken, &node.calls[c], Ghost(positions)) {
                    row.push(first + j);
                }
                c += 1;
            }
            assert(calls.take(calls.len() as int) =~= calls);
            let ghost before = rows(edges@);
            edges.push(row);
            assert(rows(edges@) =~= before.push(
                targets_of(views, positions, first as nat, calls),
            ));
            i += 1;
        }
    }

    /// The pieces of the opcode sequence within the bounds, one after the
    /// other in the order of the bounds.
    pub fn sort_opcode_sequence(opcode_sequence: &Vec<u8>, sorted_methods: &Vec<MethodBound>) -> (r:
        Vec<u8>)
        ensures
            r@ == reordered(opcode_sequence@, sorted_methods@, sorted_methods@.len() as nat),
    {
        let mut out: Vec<u8> = Vec::new();
        let mut k: usize = 0;
        while k < sorted_methods.len()
            invariant
                k <= sorted_methods@.len(),
                out@ == reordered(opcode_sequence@, sorted_methods@, k as nat),
            decreases sorted_methods.len() - k,
        {
            let (start, end) = sorted_methods[k];
            let n = opcode_sequence.len();
            if start <= end && end < n {
                let ghost before = out@;
                let mut at: usize = start;
                while at <= end
                    invariant
                        start <= at <= end + 1,
                        end < n,
                        n == opcode_sequence@.len(),
                        out@ == before + opcode_sequence@.subrange(start as int, at as int),
                    decreases end + 1 - at,
                {
                    out.push(opcode_sequence[at]);
                    at += 1;
                }
            }
            k += 1;
        }
        out
    }

    /// The bounds of the methods with the numbers `order`.
    pub fn pick_bounds(bounds: &Vec<MethodBound>, order: &Vec<usize>) -> (r: Vec<MethodBound>)
        ensures
            r@ == picked(bounds@, order@, order@.len() as nat),
    {
        let mut out: Vec<MethodBound> = Vec::new();
        let mut k: usize = 0;
        while k < order.len()
            invariant
                k <= order@.len(),
                out@ == picked(bounds@, order@, k as nat),
            decreases order.len() - k,
        {
            if order[k] < bounds.len() {
                out.push(bounds[order[k]]);
            }
            k += 1;
        }
        out
    }

    /// Collects the opcodes of the methods of the files, up to the cap, and
    /// puts the methods in the order in which a depth-first traversal of
    /// their calls leaves them. A method that does not decode, or that has
    /// no instruction, is left out. A cap of zero is no cap.
    pub fn try_from_dexes(dexes: &[DexFile], sequence_cap: usize) -> (r: DexParseModel)
        ensures
            ({
                let all = gathered(dexes@, sequence_cap, dexes@.len() as nat);
                let order = post_order(all.edges);
                let bounds = picked(all.bounds, order, order.len());
                &&& r.method_bounds@ == bounds
                &&& r.op_seq@ == reordered(all.ops, bounds, bounds.len())
            }),
    {
        let mut op_seq: Vec<u8> = Vec::new();
        let mut method_bounds: Vec<MethodBound> = Vec::new();
        let mut edges: Vec<Vec<usize>> = Vec::new();
        let mut f: usize = 0;
        assert(rows(edges@) =~= Seq::empty());
        while f < dexes.len()
            invariant
                f <= dexes@.len(),
                method_bounds@.len() == edges@.len(),
                (Gathered { ops: op_seq@, bounds: method_bounds@, edges: rows(edges@) }) == gathered(
                    dexes@,
                    sequence_cap,
                    f as nat,
                ),
            decreases dexes.len() - f,
        {
            if !(sequence_cap > 0 && op_seq.len() >= sequence_cap) {
                let (nodes, _) = decode_file(&dexes[f]);
                Self::get_op_seq(&nodes, sequence_cap, &mut op_seq, &mut method_bounds, &mut edges);
            }
            f += 1;
        }
        let order = flatten_graph_dfs(&edges);
        let sorted_methods = Self::pick_bounds(&method_bounds, &order);
        let sorted_sequence = Self::sort_opcode_sequence(&op_seq, &sorted_methods);
        DexParseModel { op_seq: sorted_sequence, method_bounds: sorted_methods }
    }
}

/// Once the cap has stopped the collection, nothing more is taken.
proof fn collect_stays(nodes: Seq<CallNodeView>, cap: usize, base: nat, k: nat, n: nat, stopped: bool)
    requires
        k <= n,
        collect(nodes, cap, base, k).stopped == stopped,
        stopped || k == n,
    ensures
        collect(nodes, cap, base, n).taken == collect(nodes, cap, base, k).taken,
    decreases n - k,
{
    if k < n {
        collect_stopped(nodes, cap, base, k, (n - 1) as nat);
    }
}

/// After the cap has stopped the collection, nothing changes.
proof fn collect_stopped(nodes: Seq<CallNodeView>, cap: usize, base: nat, k: nat, n: nat)
    requires
        k <= n,
        collect(nodes, cap, base, k).stopped,
    ensures
        collect(nodes, cap, base, n) == collect(nodes, cap, base, k),
    decreases n - k,
{
    if k < n {
        collect_stopped(nodes, cap, base, k, (n - 1) as nat);
    }
}

} // verus!
