//! The second pass: carving the recorded instructions into basic blocks and
//! linking the blocks by their successor and predecessor edges.

use std::collections::HashMap;
use vstd::prelude::*;
use super::addresses::{ascending, find_address, sorted_addresses, sorted_addresses_of};
use super::error::CallGraphError;
use super::graph::{
    fall_through, is_goto, is_switch, is_terminator, jump, lists, next, CfgView,
    MethodControlFlowGraph, Placed,
};
use crate::instruction::decode::{Instruction, InstructionView};
use crate::instruction::opcode::Opcode;

verus! {

broadcast use vstd::std_specs::hash::group_hash_axioms;

/// A maximal run of instructions that is entered at its first instruction
/// only. The edges hold indices of blocks.
#[derive(Debug)]
pub struct BasicBlock {
    /// Address of the first code unit of the block.
    pub start: u32,
    /// Address of the last code unit of the block.
    pub end: u32,
    /// The instructions whose addresses lie in the block.
    pub instructions: Vec<Instruction>,
    /// The blocks that control may go to from the end of this one.
    pub successors: Vec<usize>,
    /// The blocks from whose end control may come to this one.
    pub predecessors: Vec<usize>,
}

/// What a [`BasicBlock`] stands for.
pub struct BlockView {
    pub start: u32,
    pub end: u32,
    pub instructions: Seq<InstructionView>,
    pub successors: Seq<usize>,
    pub predecessors: Seq<usize>,
}

/// The instructions of a list as what they stand for.
pub open spec fn instruction_views(s: Seq<Instruction>) -> Seq<InstructionView> {
    Seq::new(s.len(), |i: int| s[i]@)
}

impl View for BasicBlock {
    type V = BlockView;

    open spec fn view(&self) -> BlockView {
        BlockView {
            start: self.start,
            end: self.end,
            instructions: instruction_views(self.instructions@),
            successors: self.successors@,
            predecessors: self.predecessors@,
        }
    }
}

/// The blocks of a list as what they stand for.
pub open spec fn block_views(blocks: Seq<BasicBlock>) -> Seq<BlockView> {
    Seq::new(blocks.len(), |i: int| blocks[i]@)
}

/// The largest address among the instructions, zero if there are none.
pub open spec fn max_address(instructions: Seq<Placed>) -> u32
    decreases instructions.len(),
{
    if instructions.len() == 0 {
        0
    } else {
        let rest = max_address(instructions.drop_last());
        if instructions.last().address > rest {
            instructions.last().address
        } else {
            rest
        }
    }
}

/// The last address of the block `i`: the one before the next leader, and
/// for the last block the largest address of an instruction.
pub open spec fn block_end(starts: Seq<u32>, max: u32, i: int) -> u32 {
    if i + 1 < starts.len() {
        (starts[i + 1] - 1) as u32
    } else {
        max
    }
}

/// The instructions with an address from `start` to `end`, in the order
/// in which they were added.
pub open spec fn members(instructions: Seq<Placed>, start: u32, end: u32) -> Seq<Placed>
    decreases instructions.len(),
{
    if instructions.len() == 0 {
        Seq::empty()
    } else {
        let rest = members(instructions.drop_last(), start, end);
        if start <= instructions.last().address <= end {
            rest.push(instructions.last())
        } else {
            rest
        }
    }
}

/// The placed instructions as ordinary instructions.
pub open spec fn regular_views(s: Seq<Placed>) -> Seq<InstructionView> {
    Seq::new(s.len(), |i: int| InstructionView::Regular { op: s[i].op, format: s[i].format })
}

/// The last of a list, if it has one.
pub open spec fn last_of(s: Seq<Placed>) -> Option<Placed> {
    if s.len() == 0 {
        None
    } else {
        Some(s.last())
    }
}

/// The addresses that control may go to after the instruction `last`, the
/// last of its block: the target of a jump; the resolved targets of a
/// switch and then the instruction after it; nothing after a return, a
/// throw or fill-array-data; the target and the instruction after it for
/// any other branch; the instruction after it for anything else. A block
/// without instructions leads nowhere. A switch whose payload was not
/// added has no resolved targets, which is an error.
pub open spec fn exits(targets: Map<u32, Seq<u32>>, last: Option<Placed>) -> Result<
    Seq<u32>,
    CallGraphError,
> {
    match last {
        None => Ok(Seq::empty()),
        Some(p) => {
            if is_goto(p.op) {
                match jump(p.address, p.format) {
                    Some(t) => Ok(seq![t]),
                    None => Err(
                        CallGraphError::InstructionError(
                            crate::instruction::error::InstructionError::BadFormat(p.op),
                        ),
                    ),
                }
            } else if is_switch(p.op) {
                if targets.contains_key(p.address) {
                    Ok(targets[p.address].push(next(p.address, p.format)))
                } else {
                    Err(CallGraphError::MissingSwitchOrigin(p.address))
                }
            } else if is_terminator(p.op) {
                Ok(Seq::empty())
            } else {
                match jump(p.address, p.format) {
                    Some(t) => Ok(seq![t, next(p.address, p.format)]),
                    None => Ok(seq![next(p.address, p.format)]),
                }
            }
        },
    }
}

/// The indices of the blocks that start at `addresses`, in the order of the
/// addresses. An address at which no block starts is left out.
pub open spec fn to_indices(starts: Seq<u32>, addresses: Seq<u32>) -> Seq<usize>
    decreases addresses.len(),
{
    if addresses.len() == 0 {
        Seq::empty()
    } else {
        let rest = to_indices(starts, addresses.drop_last());
        if starts.contains(addresses.last()) {
            rest.push(starts.index_of(addresses.last()) as usize)
        } else {
            rest
        }
    }
}

/// The block `u`, once for each time that `v` occurs in `successors`.
pub open spec fn occurrences(successors: Seq<usize>, v: usize, u: usize) -> Seq<usize>
    decreases successors.len(),
{
    if successors.len() == 0 {
        Seq::empty()
    } else {
        let rest = occurrences(successors.drop_last(), v, u);
        if successors.last() == v {
            rest.push(u)
        } else {
            rest
        }
    }
}

/// The predecessors of `v` among the first `n` blocks: each block `u` as
/// often as `v` is among its successors, in ascending order of `u`.
pub open spec fn predecessors_among(edges: Seq<Seq<usize>>, v: usize, n: nat) -> Seq<usize>
    decreases n,
{
    if n == 0 {
        Seq::empty()
    } else {
        predecessors_among(edges, v, (n - 1) as nat) + occurrences(
            edges[n - 1],
            v,
            (n - 1) as usize,
        )
    }
}

impl CfgView {
    /// The leaders in ascending order: the block `i` starts at the leader `i`.
    pub open spec fn starts(self) -> Seq<u32> {
        sorted_addresses(self.leaders)
    }

    /// The instructions of the block `i`.
    pub open spec fn block_members(self, i: int) -> Seq<Placed> {
        members(
            self.instructions,
            self.starts()[i],
            block_end(self.starts(), max_address(self.instructions), i),
        )
    }

    /// The addresses that control may go to from the end of the block `i`.
    pub open spec fn block_exits(self, i: int) -> Result<Seq<u32>, CallGraphError> {
        exits(self.targets, last_of(self.block_members(i)))
    }

    /// The error of the first among the blocks before `k` whose exits
    /// cannot be given.
    pub open spec fn first_failure(self, k: nat) -> Option<CallGraphError>
        decreases k,
    {
        if k == 0 {
            None
        } else {
            match self.first_failure((k - 1) as nat) {
                Some(e) => Some(e),
                None => match self.block_exits(k - 1) {
                    Err(e) => Some(e),
                    Ok(_) => None,
                },
            }
        }
    }

    /// The successors of the block `i`, as indices of blocks.
    pub open spec fn block_successors(self, i: int) -> Seq<usize> {
        to_indices(self.starts(), self.block_exits(i)->Ok_0)
    }

    /// The successor lists of all blocks.
    pub open spec fn edges(self) -> Seq<Seq<usize>> {
        Seq::new(self.starts().len(), |u: int| self.block_successors(u))
    }

    /// The block `i`.
    pub open spec fn block(self, i: int) -> BlockView {
        BlockView {
            start: self.starts()[i],
            end: block_end(self.starts(), max_address(self.instructions), i),
            instructions: regular_views(self.block_members(i)),
            successors: self.block_successors(i),
            predecessors: predecessors_among(self.edges(), i as usize, self.starts().len()),
        }
    }

    /// The basic blocks of the method. Without instructions there are none.
    /// Else there is one block for each leader, in ascending order of the
    /// leaders, unless the exits of some block cannot be given.
    pub open spec fn blocks(self) -> Result<Seq<BlockView>, CallGraphError> {
        if self.instructions.len() == 0 {
            Ok(Seq::empty())
        } else {
            match self.first_failure(self.starts().len()) {
                Some(e) => Err(e),
                None => Ok(Seq::new(self.starts().len(), |i: int| self.block(i))),
            }
        }
    }
}

/// The largest address among the instructions.
fn largest_address(instructions: &Vec<Placed>) -> (max: u32)
    ensures
        max == max_address(instructions@),
{
    let mut max: u32 = 0;
    let mut k: usize = 0;
    while k < instructions.len()
        invariant
            k <= instructions@.len(),
            max == max_address(instructions@.take(k as int)),
        decreases instructions.len() - k,
    {
        assert(instructions@.take(k + 1).drop_last() =~= instructions@.take(k as int));
        if instructions[k].address > max {
            max = instructions[k].address;
        }
        k += 1;
    }
    assert(instructions@.take(instructions@.len() as int) =~= instructions@);
    max
}

/// Collects the instructions with an address from `start` to `end`, and
/// the last of them.
fn collect_members(instructions: &Vec<Placed>, start: u32, end: u32) -> (r: (
    Vec<Instruction>,
    Option<Placed>,
))
    ensures
        instruction_views(r.0@) == regular_views(members(instructions@, start, end)),
        r.1 == last_of(members(instructions@, start, end)),
{
    let mut found: Vec<Instruction> = Vec::new();
    let mut last: Option<Placed> = None;
    let mut k: usize = 0;
    while k < instructions.len()
        invariant
            k <= instructions@.len(),
            instruction_views(found@) == regular_views(
                members(instructions@.take(k as int), start, end),
            ),
            last == last_of(members(instructions@.take(k as int), start, end)),
        decreases instructions.len() - k,
    {
        assert(instructions@.take(k + 1).drop_last() =~= instructions@.take(k as int));
        let p = instructions[k];
        if start <= p.address && p.address <= end {
            let ghost before = found@;
            found.push(Instruction::Regular { op: p.op, format: p.format });
            last = Some(p);
            assert(instruction_views(found@) =~= instruction_views(before).push(
                InstructionView::Regular { op: p.op, format: p.format },
            ));
            assert(regular_views(members(instructions@.take(k + 1), start, end))
                =~= regular_views(members(instructions@.take(k as int), start, end)).push(
                InstructionView::Regular { op: p.op, format: p.format },
            ));
        }
        k += 1;
    }
    assert(instructions@.take(instructions@.len() as int) =~= instructions@);
    (found, last)
}

/// The addresses that control may go to after the last instruction of a block.
fn exits_after(targets: &HashMap<u32, Vec<u32>>, last: Option<Placed>) -> (r: Result<
    Vec<u32>,
    CallGraphError,
>)
    ensures
        match exits(lists(targets@), last) {
            Ok(addresses) => r is Ok && r->Ok_0@ == addresses,
            Err(e) => r == Err::<Vec<u32>, CallGraphError>(e),
        },
{
    let mut out: Vec<u32> = Vec::new();
    let p = match last {
        None => {
            return Ok(out);
        },
        Some(p) => p,
    };
    match p.op {
        Opcode::Goto | Opcode::Goto16 | Opcode::Goto32 => {
            let target = match MethodControlFlowGraph::target(p.op, p.address, &p.format) {
                Ok(t) => t,
                Err(e) => {
                    return Err(e);
                },
            };
            out.push(target);
        },
        Opcode::PackedSwitch | Opcode::SparseSwitch => {
            let resolved = match targets.get(&p.address) {
                Some(list) => list,
                None => {
                    return Err(CallGraphError::MissingSwitchOrigin(p.address));
                },
            };
            let mut k: usize = 0;
            while k < resolved.len()
                invariant
                    k <= resolved@.len(),
                    out@ == resolved@.take(k as int),
                decreases resolved.len() - k,
            {
                out.push(resolved[k]);
                k += 1;
            }
            out.push(fall_through(p.address, &p.format));
        },
        Opcode::FillArrayData
        | Opcode::ReturnVoid
        | Opcode::Return
        | Opcode::ReturnWide
        | Opcode::ReturnObject
        | Opcode::Throw => {},
        _ => {
            match MethodControlFlowGraph::target(p.op, p.address, &p.format) {
                Ok(t) => {
                    out.push(t);
                    out.push(fall_through(p.address, &p.format));
                },
                Err(_) => {
                    out.push(fall_through(p.address, &p.format));
                },
            }
        },
    }
    Ok(out)
}

/// The indices of the blocks that start at `addresses`.
fn indices_of(starts: &Vec<u32>, addresses: &Vec<u32>) -> (r: Vec<usize>)
    requires
        ascending(starts@),
    ensures
        r@ == to_indices(starts@, addresses@),
        forall|k: int| 0 <= k < r@.len() ==> r@[k] < starts@.len(),
{
    let mut out: Vec<usize> = Vec::new();
    let mut k: usize = 0;
    while k < addresses.len()
        invariant
            ascending(starts@),
            k <= addresses@.len(),
            out@ == to_indices(starts@, addresses@.take(k as int)),
            forall|x: int| 0 <= x < out@.len() ==> out@[x] < starts@.len(),
        decreases addresses.len() - k,
    {
        assert(addresses@.take(k + 1).drop_last() =~= addresses@.take(k as int));
        match find_address(starts, addresses[k]) {
            Some(i) => {
                out.push(i);
            },
            None => {},
        }
        k += 1;
    }
    assert(addresses@.take(addresses@.len() as int) =~= addresses@);
    out
}

impl BasicBlock {
    /// Carves the instructions that `cfg` has recorded into basic blocks
    /// and links the blocks. The block `i` starts at the leader `i` in
    /// ascending order; the first block is the entry of the method.
    pub fn from_method_cfg(cfg: MethodControlFlowGraph) -> (r: Result<
        Vec<BasicBlock>,
        CallGraphError,
    >)
        requires
            cfg.wf(),
        ensures
            match cfg@.blocks() {
                Ok(blocks) => r is Ok && block_views(r->Ok_0@) == blocks,
                Err(e) => r == Err::<Vec<BasicBlock>, CallGraphError>(e),
            },
            r is Ok ==> linked(block_views(r->Ok_0@)),
    {
        proof {
            cfg.fields();
            sorted_addresses_of(cfg.leaders@);
            blocks_are_linked(cfg);
        }
        let mut blocks: Vec<BasicBlock> = Vec::new();
        if cfg.instructions.len() == 0 {
            return Ok(blocks);
        }
        let max = largest_address(&cfg.instructions);
        let n = cfg.leaders.len();
        let ghost view = cfg@;
        let mut i: usize = 0;
        while i < n
            invariant
                i <= n,
                n == cfg.leaders@.len(),
                view == cfg@,
                view.starts() == cfg.leaders@,
                view.instructions == cfg.instructions@,
                view.targets == lists(cfg.switch_branch_targets@),
                ascending(cfg.leaders@),
                max == max_address(cfg.instructions@),
                blocks@.len() == i,
                view.first_failure(i as nat) is None,
                forall|k: int|
                    0 <= k < i ==> (#[trigger] blocks@[k])@ == (BlockView {
                        predecessors: Seq::empty(),
                        ..view.block(k)
                    }),
                forall|k: int, x: int|
                    0 <= k < i && 0 <= x < blocks@[k].successors@.len() ==> (
                    #[trigger] blocks@[k].successors@[x]) < n,
            decreases n - i,
        {
            let start = cfg.leaders[i];
            let end = if i + 1 < n {
                cfg.leaders[i + 1] - 1
            } else {
                max
            };
            let (instructions, last) = collect_members(&cfg.instructions, start, end);
            let addresses = match exits_after(&cfg.switch_branch_targets, last) {
                Ok(addresses) => addresses,
                Err(e) => {
                    proof {
                        first_failure_stays(view, (i + 1) as nat, n as nat);
                    }
                    return Err(e);
                },
            };
            let successors = indices_of(&cfg.leaders, &addresses);
            blocks.push(
                BasicBlock { start, end, instructions, successors, predecessors: Vec::new() },
            );
            i += 1;
        }
        let ghost edges = view.edges();
        let mut u: usize = 0;
        while u < n
            invariant
                u <= n,
                n == blocks@.len(),
                n == view.starts().len(),
                edges == view.edges(),
                forall|k: int|
                    0 <= k < n ==> (#[trigger] blocks@[k])@ == (BlockView {
                        predecessors: predecessors_among(edges, k as usize, u as nat),
                        ..view.block(k)
                    }),
                forall|k: int, x: int|
                    0 <= k < n && 0 <= x < blocks@[k].successors@.len() ==> (
                    #[trigger] blocks@[k].successors@[x]) < n,
            decreases n - u,
        {
            let count = blocks[u].successors.len();
            let mut x: usize = 0;
            while x < count
                invariant
                    u < n,
                    x <= count,
                    n == blocks@.len(),
                    n == view.starts().len(),
                    edges == view.edges(),
                    count == edges[u as int].len(),
                    forall|k: int|
                        0 <= k < n ==> (#[trigger] blocks@[k])@ == (BlockView {
                            predecessors: predecessors_among(edges, k as usize, u as nat)
                                + occurrences(edges[u as int].take(x as int), k as usize, u),
                            ..view.block(k)
                        }),
                    forall|k: int, y: int|
                        0 <= k < n && 0 <= y < blocks@[k].successors@.len() ==> (
                        #[trigger] blocks@[k].successors@[y]) < n,
                decreases count - x,
            {
                let v = blocks[u].successors[x];
                let ghost before = blocks@;
                blocks[v].predecessors.push(u);
                proof {
                    let row = edges[u as int];
                    assert(row.take(x + 1).drop_last() =~= row.take(x as int));
                }
                x += 1;
            }
            assert(edges[u as int].take(count as int) =~= edges[u as int]);
            u += 1;
        }
        assert(block_views(blocks@) =~= Seq::new(n as nat, |i: int| view.block(i)));
        Ok(blocks)
    }
}

/// Once some block has failed, the failure stays the first.
proof fn first_failure_stays(view: CfgView, k: nat, n: nat)
    requires
        k <= n,
        view.first_failure(k) is Some,
    ensures
        view.first_failure(n) == view.first_failure(k),
    decreases n - k,
{
    if k < n {
        first_failure_stays(view, k, (n - 1) as nat);
    }
}

/// How often `x` occurs in `s`.
pub open spec fn count(s: Seq<usize>, x: usize) -> nat
    decreases s.len(),
{
    if s.len() == 0 {
        0
    } else {
        count(s.drop_last(), x) + if s.last() == x {
            1nat
        } else {
            0nat
        }
    }
}

/// The edges of the blocks stay among the blocks, and every edge is held at
/// both of its ends: a block is among the predecessors of another as often
/// as the other is among its successors.
pub open spec fn linked(blocks: Seq<BlockView>) -> bool {
    &&& forall|u: int, x: int|
        0 <= u < blocks.len() && 0 <= x < blocks[u].successors.len() ==> (
        #[trigger] blocks[u].successors[x]) < blocks.len()
    &&& forall|v: int, x: int|
        0 <= v < blocks.len() && 0 <= x < blocks[v].predecessors.len() ==> (
        #[trigger] blocks[v].predecessors[x]) < blocks.len()
    &&& forall|u: int, v: int|
        0 <= u < blocks.len() && 0 <= v < blocks.len() ==> count(
            #[trigger] blocks[u].successors,
            v as usize,
        ) == count(#[trigger] blocks[v].predecessors, u as usize)
}

/// Counting in a concatenation adds up.
proof fn count_concat(a: Seq<usize>, b: Seq<usize>, x: usize)
    ensures
        count(a + b, x) == count(a, x) + count(b, x),
    decreases b.len(),
{
    if b.len() > 0 {
        assert((a + b).drop_last() =~= a + b.drop_last());
        count_concat(a, b.drop_last(), x);
    }
}

/// The occurrences of `v` put `u` as often as `v` is counted, and nothing else.
proof fn count_occurrences(s: Seq<usize>, v: usize, u: usize, w: usize)
    ensures
        count(occurrences(s, v, u), w) == if w == u {
            count(s, v)
        } else {
            0
        },
        forall|x: int|
            0 <= x < occurrences(s, v, u).len() ==> (#[trigger] occurrences(s, v, u)[x]) == u,
    decreases s.len(),
{
    if s.len() > 0 {
        count_occurrences(s.drop_last(), v, u, w);
        if s.last() == v {
            assert(occurrences(s, v, u).drop_last() =~= occurrences(s.drop_last(), v, u));
        }
    }
}

/// A block is among the predecessors of `v` as often as `v` is among its successors.
proof fn count_predecessors(edges: Seq<Seq<usize>>, v: usize, n: nat, u: usize)
    requires
        n <= edges.len(),
        n <= usize::MAX,
    ensures
        count(predecessors_among(edges, v, n), u) == if u < n {
            count(edges[u as int], v)
        } else {
            0
        },
        forall|x: int|
            0 <= x < predecessors_among(edges, v, n).len() ==> (#[trigger] predecessors_among(
                edges,
                v,
                n,
            )[x]) < n,
    decreases n,
{
    if n > 0 {
        count_predecessors(edges, v, (n - 1) as nat, u);
        count_occurrences(edges[n - 1], v, (n - 1) as usize, u);
        count_concat(
            predecessors_among(edges, v, (n - 1) as nat),
            occurrences(edges[n - 1], v, (n - 1) as usize),
            u,
        );
    }
}

/// The indices of blocks are below the number of blocks.
proof fn indices_in_range(starts: Seq<u32>, addresses: Seq<u32>)
    requires
        starts.len() <= usize::MAX,
    ensures
        forall|x: int|
            0 <= x < to_indices(starts, addresses).len() ==> (#[trigger] to_indices(
                starts,
                addresses,
            )[x]) < starts.len(),
    decreases addresses.len(),
{
    if addresses.len() > 0 {
        indices_in_range(starts, addresses.drop_last());
        let rest = to_indices(starts, addresses.drop_last());
        let all = to_indices(starts, addresses);
        assert forall|x: int| 0 <= x < all.len() implies (#[trigger] all[x]) < starts.len() by {
            if x < rest.len() {
                assert(all[x] == rest[x]);
            }
        }
    }
}

/// The members of a block have their addresses within its bounds.
proof fn members_in_range(instructions: Seq<Placed>, start: u32, end: u32)
    ensures
        forall|k: int|
            0 <= k < members(instructions, start, end).len() ==> start <= (#[trigger] members(
                instructions,
                start,
                end,
            )[k]).address <= end,
    decreases instructions.len(),
{
    if instructions.len() > 0 {
        members_in_range(instructions.drop_last(), start, end);
    }
}

/// The blocks that are carved out of a builder are linked.
pub proof fn blocks_are_linked(g: MethodControlFlowGraph)
    requires
        g.wf(),
    ensures
        g@.blocks() matches Ok(blocks) ==> linked(blocks),
{
    g.fields();
    sorted_addresses_of(g.leaders@);
    assert(g.leaders@.len() <= usize::MAX) by {
        assert(g.leaders.len() == g.leaders@.len());
    }
    if let Ok(blocks) = g@.blocks() {
        let view = g@;
        let n = blocks.len();
        let edges = view.edges();
        assert forall|u: int, x: int|
            0 <= u < blocks.len() && 0 <= x < blocks[u].successors.len() implies (
        #[trigger] blocks[u].successors[x]) < blocks.len() by {
            indices_in_range(view.starts(), view.block_exits(u)->Ok_0);
        }
        assert forall|v: int, x: int|
            0 <= v < blocks.len() && 0 <= x < blocks[v].predecessors.len() implies (
        #[trigger] blocks[v].predecessors[x]) < blocks.len() by {
            count_predecessors(edges, v as usize, n, 0);
        }
        assert forall|u: int, v: int| 0 <= u < blocks.len() && 0 <= v < blocks.len() implies count(
            #[trigger] blocks[u].successors,
            v as usize,
        ) == count(#[trigger] blocks[v].predecessors, u as usize) by {
            count_predecessors(edges, v as usize, n, u as usize);
        }
    }
}

/// Every edge of the carved blocks is held at both of its ends, as often at
/// the one as at the other.
pub proof fn edges_are_mirrored(g: MethodControlFlowGraph, u: int, v: int)
    requires
        g.wf(),
        g@.blocks() is Ok,
        0 <= u < g@.blocks()->Ok_0.len(),
        0 <= v < g@.blocks()->Ok_0.len(),
    ensures
        count(g@.blocks()->Ok_0[u].successors, v as usize) == count(
            g@.blocks()->Ok_0[v].predecessors,
            u as usize,
        ),
{
    blocks_are_linked(g);
}

/// The bounds of the carved blocks. No two blocks start at the same
/// address. A block holds the recorded instructions whose addresses lie
/// from its start to its end, and no others. Its start is not behind its
/// end; for the last block this holds where its leader is not behind the
/// largest address of an instruction.
pub proof fn block_bounds(g: MethodControlFlowGraph, i: int, j: int)
    requires
        g.wf(),
        g@.blocks() is Ok,
        0 <= i < g@.blocks()->Ok_0.len(),
        0 <= j < g@.blocks()->Ok_0.len(),
    ensures
        ({
            let blocks = g@.blocks()->Ok_0;
            let b = blocks[i];
            &&& blocks[j].start == b.start ==> i == j
            &&& i < j ==> b.start < blocks[j].start && b.end < blocks[j].start
            &&& b.instructions == regular_views(members(g@.instructions, b.start, b.end))
            &&& forall|k: int|
                0 <= k < members(g@.instructions, b.start, b.end).len() ==> b.start <= (
                #[trigger] members(g@.instructions, b.start, b.end)[k]).address <= b.end
            &&& (i + 1 < blocks.len() || b.start <= max_address(g@.instructions)) ==> b.start
                <= b.end
        }),
{
    g.fields();
    sorted_addresses_of(g.leaders@);
    let blocks = g@.blocks()->Ok_0;
    members_in_range(g@.instructions, blocks[i].start, blocks[i].end);
}

} // verus!
