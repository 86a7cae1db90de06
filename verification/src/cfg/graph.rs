//! The first pass over a method's code: it records the instructions, finds
//! the leaders and ties each switch to the targets that its payload gives.

use std::collections::HashMap;
use vstd::prelude::*;
use super::addresses::{ascending, insert_address};
use super::error::CallGraphError;
use crate::instruction::decode::Instruction;
use crate::instruction::error::InstructionError;
use crate::instruction::format::Format;
use crate::instruction::opcode::Opcode;

verus! {

broadcast use vstd::std_specs::hash::group_hash_axioms;

/// An ordinary instruction with the address of its first code unit, counted
/// in code units from the start of the method.
#[derive(Clone, Copy, Debug, PartialEq, Eq)]
pub struct Placed {
    pub address: u32,
    pub op: Opcode,
    pub format: Format,
}

/// An address computation wrapped into 32 bits.
pub open spec fn wrap(x: int) -> u32 {
    (x % 0x1_0000_0000) as u32
}

/// The address a branch at `address` with the operands `format` goes to,
/// for the layouts that hold a branch offset.
pub open spec fn jump(address: u32, format: Format) -> Option<u32> {
    match format.branch_offset() {
        Some(offset) => Some(wrap(address + offset)),
        None => None,
    }
}

/// The address of the code unit that follows the instruction at `address`.
pub open spec fn next(address: u32, format: Format) -> u32 {
    wrap(address + format.kind().units())
}

/// The three unconditional jumps.
pub open spec fn is_goto(op: Opcode) -> bool {
    op == Opcode::Goto || op == Opcode::Goto16 || op == Opcode::Goto32
}

/// The two switch instructions.
pub open spec fn is_switch(op: Opcode) -> bool {
    op == Opcode::PackedSwitch || op == Opcode::SparseSwitch
}

/// The instructions after which control never goes on to another
/// instruction of the method: the returns and throw. The instruction
/// fill-array-data is counted among them, because the offset it holds
/// is that of its data and no branch.
pub open spec fn is_terminator(op: Opcode) -> bool {
    ||| op == Opcode::FillArrayData
    ||| op == Opcode::ReturnVoid
    ||| op == Opcode::Return
    ||| op == Opcode::ReturnWide
    ||| op == Opcode::ReturnObject
    ||| op == Opcode::Throw
}

/// The list that `m` holds under `k`, empty if there is none.
pub open spec fn list_at(m: Map<u32, Seq<u32>>, k: u32) -> Seq<u32> {
    if m.contains_key(k) {
        m[k]
    } else {
        Seq::empty()
    }
}

/// The branch targets of a switch at `origin` for the cases `entries`, in
/// the order of the entries.
pub open spec fn case_targets(origin: u32, entries: Seq<(i32, i32)>) -> Seq<u32> {
    Seq::new(entries.len(), |j: int| wrap(origin + entries[j].1))
}

/// The resolved targets after the payload `entries` has been applied to
/// each of `origins` in turn: every origin gets its case targets appended.
pub open spec fn resolve(
    targets: Map<u32, Seq<u32>>,
    origins: Seq<u32>,
    entries: Seq<(i32, i32)>,
) -> Map<u32, Seq<u32>>
    decreases origins.len(),
{
    if origins.len() == 0 {
        targets
    } else {
        let before = resolve(targets, origins.drop_last(), entries);
        let origin = origins.last();
        before.insert(origin, list_at(before, origin) + case_targets(origin, entries))
    }
}

/// The leaders after the case targets of each of `origins` have been added.
pub open spec fn with_case_targets(
    leaders: Set<u32>,
    origins: Seq<u32>,
    entries: Seq<(i32, i32)>,
) -> Set<u32>
    decreases origins.len(),
{
    if origins.len() == 0 {
        leaders
    } else {
        with_case_targets(leaders, origins.drop_last(), entries).union(
            case_targets(origins.last(), entries).to_set(),
        )
    }
}

/// What the builder knows after some instructions have been added.
pub struct CfgView {
    /// The ordinary instructions in the order they were added.
    pub instructions: Seq<Placed>,
    /// For each payload address that a switch refers to and whose payload
    /// has not been seen yet, the addresses of the switches that refer to it.
    pub origins: Map<u32, Seq<u32>>,
    /// For each switch whose payload has been seen, its branch targets.
    pub targets: Map<u32, Seq<u32>>,
    /// The addresses at which a basic block starts.
    pub leaders: Set<u32>,
}

impl CfgView {
    /// Nothing added yet.
    pub open spec fn empty() -> CfgView {
        CfgView {
            instructions: Seq::empty(),
            origins: Map::empty(),
            targets: Map::empty(),
            leaders: Set::empty(),
        }
    }

    /// The leaders that an ordinary instruction adds: the target of a jump,
    /// the instruction after a switch, both the target of and the
    /// instruction after any other branch. The first instruction added is a
    /// leader itself.
    pub open spec fn leaders_with(self, address: u32, op: Opcode, format: Format) -> Set<u32> {
        let entry = if self.instructions.len() == 0 {
            self.leaders.insert(address)
        } else {
            self.leaders
        };
        if is_goto(op) {
            entry.insert(jump(address, format)->Some_0)
        } else if is_switch(op) {
            entry.insert(next(address, format))
        } else if op == Opcode::FillArrayData {
            entry
        } else if jump(address, format) is Some {
            entry.insert(jump(address, format)->Some_0).insert(next(address, format))
        } else {
            entry
        }
    }

    /// The state after the ordinary instruction `op` with the operands
    /// `format` at `address` has been added. A jump or a switch whose
    /// operands hold no branch offset is refused.
    pub open spec fn add_regular(self, address: u32, op: Opcode, format: Format) -> Result<
        CfgView,
        CallGraphError,
    > {
        if (is_goto(op) || is_switch(op)) && jump(address, format) is None {
            Err(CallGraphError::InstructionError(InstructionError::BadFormat(op)))
        } else {
            Ok(
                CfgView {
                    instructions: self.instructions.push(Placed { address, op, format }),
                    origins: if is_switch(op) {
                        let payload = jump(address, format)->Some_0;
                        self.origins.insert(payload, list_at(self.origins, payload).push(address))
                    } else {
                        self.origins
                    },
                    targets: self.targets,
                    leaders: self.leaders_with(address, op, format),
                },
            )
        }
    }

    /// The state after the switch payload at `address` with the cases
    /// `entries` has been added: the switches that refer to it get their
    /// branch targets, and those become leaders. A payload that no switch
    /// refers to is refused.
    pub open spec fn add_payload(self, address: u32, entries: Seq<(i32, i32)>) -> Result<
        CfgView,
        CallGraphError,
    > {
        if !self.origins.contains_key(address) {
            Err(CallGraphError::MissingSwitchOrigin(address))
        } else {
            let origins = self.origins[address];
            Ok(
                CfgView {
                    instructions: self.instructions,
                    origins: self.origins.remove(address),
                    targets: resolve(self.targets, origins, entries),
                    leaders: with_case_targets(self.leaders, origins, entries),
                },
            )
        }
    }

    /// The state after `instruction` has been added at `address`.
    /// Fill-array data changes nothing.
    pub open spec fn add(self, address: u32, instruction: Instruction) -> Result<
        CfgView,
        CallGraphError,
    > {
        match instruction {
            Instruction::Regular { op, format } => self.add_regular(address, op, format),
            Instruction::SwitchPayload { kv, code_units } => self.add_payload(address, kv.entries@),
            Instruction::FillArrayPayload { element_width, data, code_units } => Ok(self),
        }
    }
}

/// The addresses that the lists of `m` hold.
pub open spec fn lists(m: Map<u32, Vec<u32>>) -> Map<u32, Seq<u32>> {
    m.map_values(|v: Vec<u32>| v@)
}

/// The builder of a method's control-flow graph. Instructions are added one
/// by one with their addresses; the blocks are carved out of the result.
#[derive(Debug)]
pub struct MethodControlFlowGraph {
    pub(crate) instructions: Vec<Placed>,
    pub(crate) switch_payload_origin: HashMap<u32, Vec<u32>>,
    pub(crate) switch_branch_targets: HashMap<u32, Vec<u32>>,
    pub(crate) leaders: Vec<u32>,
}

impl View for MethodControlFlowGraph {
    type V = CfgView;

    closed spec fn view(&self) -> CfgView {
        CfgView {
            instructions: self.instructions@,
            origins: lists(self.switch_payload_origin@),
            targets: lists(self.switch_branch_targets@),
            leaders: self.leaders@.to_set(),
        }
    }
}

/// Adds `base` and `delta`, wrapped into 32 bits.
fn wrapping_offset(base: u32, delta: i32) -> (r: u32)
    ensures
        r == wrap(base + delta),
{
    let sum: i64 = base as i64 + delta as i64;
    if sum < 0 {
        (sum + 0x1_0000_0000) as u32
    } else if sum >= 0x1_0000_0000 {
        (sum - 0x1_0000_0000) as u32
    } else {
        sum as u32
    }
}

/// The address of the code unit that follows the instruction at `address`.
pub fn fall_through(address: u32, format: &Format) -> (r: u32)
    ensures
        r == next(address, *format),
{
    wrapping_offset(address, format.len() as i32)
}

/// The set of a list with one more element.
proof fn to_set_push(s: Seq<u32>, x: u32)
    ensures
        s.push(x).to_set() == s.to_set().insert(x),
{
    assert forall|a: u32| s.push(x).to_set().contains(a) <==> s.to_set().insert(x).contains(a) by {
        if s.contains(a) {
            let i = choose|i: int| 0 <= i < s.len() && s[i] == a;
            assert(s.push(x)[i] == a);
        }
        if a == x {
            assert(s.push(x)[s.len() as int] == a);
        }
    }
}

impl MethodControlFlowGraph {
    /// The leaders are held in ascending order, and the first instruction
    /// is one of them.
    pub closed spec fn wf(&self) -> bool {
        &&& ascending(self.leaders@)
        &&& self.instructions@.len() > 0 ==> self.leaders@.len() > 0
    }

    /// What the view and the validity of a builder say of its fields.
    pub(crate) proof fn fields(&self)
        ensures
            self@.instructions == self.instructions@,
            self@.origins == lists(self.switch_payload_origin@),
            self@.targets == lists(self.switch_branch_targets@),
            self@.leaders == self.leaders@.to_set(),
            self.wf() ==> ascending(self.leaders@) && (self.instructions@.len() > 0
                ==> self.leaders@.len() > 0),
    {
    }

    /// The builder with no instruction added.
    pub fn new() -> (g: MethodControlFlowGraph)
        ensures
            g.wf(),
            g@ == CfgView::empty(),
    {
        let g = MethodControlFlowGraph {
            instructions: Vec::new(),
            switch_payload_origin: HashMap::new(),
            switch_branch_targets: HashMap::new(),
            leaders: Vec::new(),
        };
        assert(g@.targets =~= Map::empty());
        assert(g@.leaders =~= Set::empty());
        g
    }

    /// Number of ordinary instructions added so far.
    pub fn len(&self) -> (n: usize)
        ensures
            n == self@.instructions.len(),
    {
        self.instructions.len()
    }

    /// Whether `address` has been found to start a basic block.
    pub fn is_leader(&self, address: u32) -> (r: bool)
        requires
            self.wf(),
        ensures
            r == self@.leaders.contains(address),
    {
        super::addresses::find_address(&self.leaders, address).is_some()
    }

    /// The address that the branch `op` at `address` goes to. Operands
    /// without a branch offset are refused.
    pub fn target(op: Opcode, address: u32, format: &Format) -> (r: Result<u32, CallGraphError>)
        ensures
            r == match jump(address, *format) {
                Some(t) => Ok::<u32, CallGraphError>(t),
                None => Err::<u32, CallGraphError>(
                    CallGraphError::InstructionError(InstructionError::BadFormat(op)),
                ),
            },
    {
        match format.offset() {
            Some(offset) => Ok(wrapping_offset(address, offset)),
            None => Err(CallGraphError::InstructionError(InstructionError::BadFormat(op))),
        }
    }

    /// Adds the instruction or payload found at `address`. On an error the
    /// builder is left as it was.
    pub fn add_instruction(&mut self, address: u32, instruction: Instruction) -> (r: Result<
        (),
        CallGraphError,
    >)
        requires
            old(self).wf(),
        ensures
            final(self).wf(),
            match old(self)@.add(address, instruction) {
                Ok(after) => r is Ok && final(self)@ == after,
                Err(e) => r == Err::<(), CallGraphError>(e) && final(self)@ == old(self)@,
            },
    {
        match instruction {
            Instruction::Regular { op, format } => self.add_regular(address, op, format),
            Instruction::SwitchPayload { kv, .. } => self.add_payload(address, &kv.entries),
            Instruction::FillArrayPayload { .. } => Ok(()),
        }
    }

    /// Makes `address` a leader.
    fn add_leader(&mut self, address: u32)
        requires
            old(self).wf(),
        ensures
            final(self).wf(),
            final(self).leaders@.len() > 0,
            final(self)@ == (CfgView { leaders: old(self)@.leaders.insert(address), ..old(self)@ }),
    {
        insert_address(&mut self.leaders, address);
        assert(self.leaders@.to_set().contains(address));
    }

    /// Adds an ordinary instruction.
    fn add_regular(&mut self, address: u32, op: Opcode, format: Format) -> (r: Result<
        (),
        CallGraphError,
    >)
        requires
            old(self).wf(),
        ensures
            final(self).wf(),
            match old(self)@.add_regular(address, op, format) {
                Ok(after) => r is Ok && final(self)@ == after,
                Err(e) => r == Err::<(), CallGraphError>(e) && final(self)@ == old(self)@,
            },
    {
        let ghost before = self@;
        match op {
            Opcode::Goto | Opcode::Goto16 | Opcode::Goto32 => {
                let target = match Self::target(op, address, &format) {
                    Ok(t) => t,
                    Err(e) => {
                        return Err(e);
                    },
                };
                self.add_leader(target);
            },
            Opcode::PackedSwitch | Opcode::SparseSwitch => {
                let payload = match Self::target(op, address, &format) {
                    Ok(t) => t,
                    Err(e) => {
                        return Err(e);
                    },
                };
                self.add_leader(fall_through(address, &format));
                let mut origins = match self.switch_payload_origin.remove(&payload) {
                    Some(list) => list,
                    None => Vec::new(),
                };
                origins.push(address);
                self.switch_payload_origin.insert(payload, origins);
                assert(self@.origins =~= before.origins.insert(
                    payload,
                    list_at(before.origins, payload).push(address),
                ));
            },
            Opcode::FillArrayData => {},
            _ => {
                if let Some(offset) = format.offset() {
                    self.add_leader(wrapping_offset(address, offset));
                    self.add_leader(fall_through(address, &format));
                }
            },
        }
        if self.instructions.len() == 0 {
            self.add_leader(address);
        }
        self.instructions.push(Placed { address, op, format });
        assert(self@.leaders =~= before.leaders_with(address, op, format));
        Ok(())
    }

    /// Adds a switch payload with the cases `entries`.
    fn add_payload(&mut self, address: u32, entries: &Vec<(i32, i32)>) -> (r: Result<
        (),
        CallGraphError,
    >)
        requires
            old(self).wf(),
        ensures
            final(self).wf(),
            match old(self)@.add_payload(address, entries@) {
                Ok(after) => r is Ok && final(self)@ == after,
                Err(e) => r == Err::<(), CallGraphError>(e) && final(self)@ == old(self)@,
            },
    {
        let ghost before = self@;
        let origins = match self.switch_payload_origin.remove(&address) {
            Some(list) => list,
            None => {
                assert(self@.origins =~= before.origins);
                return Err(CallGraphError::MissingSwitchOrigin(address));
            },
        };
        let mut i: usize = 0;
        while i < origins.len()
            invariant
                i <= origins@.len(),
                self.wf(),
                self@.instructions == before.instructions,
                self@.origins == before.origins.remove(address),
                self@.targets == resolve(before.targets, origins@.take(i as int), entries@),
                self@.leaders == with_case_targets(before.leaders, origins@.take(i as int), entries@),
            decreases origins.len() - i,
        {
            let origin = origins[i];
            let ghost start = self@;
            let mut list = match self.switch_branch_targets.remove(&origin) {
                Some(list) => list,
                None => Vec::new(),
            };
            let ghost head = list@;
            let mut j: usize = 0;
            while j < entries.len()
                invariant
                    j <= entries@.len(),
                    self.wf(),
                    self@.instructions == before.instructions,
                    self@.origins == before.origins.remove(address),
                    lists(self.switch_branch_targets@) == start.targets.remove(origin),
                    list@ == head + case_targets(origin, entries@).take(j as int),
                    self@.leaders == start.leaders.union(
                        case_targets(origin, entries@).take(j as int).to_set(),
                    ),
                decreases entries.len() - j,
            {
                let target = wrapping_offset(origin, entries[j].1);
                self.add_leader(target);
                list.push(target);
                proof {
                    let all = case_targets(origin, entries@);
                    assert(all.take(j + 1) =~= all.take(j as int).push(target));
                    to_set_push(all.take(j as int), target);
                }
                j += 1;
            }
            self.switch_branch_targets.insert(origin, list);
            proof {
                let all = case_targets(origin, entries@);
                assert(all.take(entries@.len() as int) =~= all);
                assert(origins@.take(i + 1).drop_last() =~= origins@.take(i as int));
                assert(self@.targets =~= start.targets.remove(origin).insert(origin, list@));
            }
            i += 1;
        }
        assert(origins@.take(origins@.len() as int) =~= origins@);
        Ok(())
    }
}

impl Default for MethodControlFlowGraph {
    fn default() -> (g: MethodControlFlowGraph)
        ensures
            g.wf(),
            g@ == CfgView::empty(),
    {
        MethodControlFlowGraph::new()
    }
}

} // verus!
