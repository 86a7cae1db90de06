use dexompiler::cfg::dominators::dominators;
use dexompiler::cfg::natural_loop::{natural_loop, natural_loops};
use dexompiler::cfg::{BasicBlock, CallGraphError, Loop, MethodControlFlowGraph};
use dexompiler::instruction::format::{F10t, F11x, F31t};
use dexompiler::instruction::{Format, Instruction, InstructionError, Opcode, SwitchTable};

fn build(code: &[u16]) -> Result<MethodControlFlowGraph, CallGraphError> {
    let mut graph = MethodControlFlowGraph::new();
    let mut offset = 0;
    while let Some((instruction, n)) = Instruction::try_from_code(code, offset).unwrap() {
        graph.add_instruction(offset as u32, instruction)?;
        offset += n;
    }
    Ok(graph)
}

fn blocks_of(code: &[u16]) -> Vec<BasicBlock> {
    BasicBlock::from_method_cfg(build(code).unwrap()).unwrap()
}

fn block(b: &BasicBlock) -> (u32, u32, Vec<Opcode>, Vec<usize>, Vec<usize>) {
    let ops = b
        .instructions
        .iter()
        .map(|i| match i {
            Instruction::Regular { op, .. } => *op,
            other => panic!("{other:?}"),
        })
        .collect();
    (b.start, b.end, ops, b.successors.clone(), b.predecessors.clone())
}

// 0: const/4   1: if-eqz +4   3: add-int/2addr   4: goto -3   5: return-void
const LOOP: [u16; 6] = [0x0012, 0x0038, 0x0004, 0x10b0, 0xfd28, 0x000e];

#[test]
fn leaders_of_a_loop() {
    let graph = build(&LOOP).unwrap();
    assert_eq!(graph.len(), 5);
    for a in 0..8 {
        assert_eq!(graph.is_leader(a), [0, 1, 3, 5].contains(&a), "{a}");
    }
}

#[test]
fn blocks_of_a_loop() {
    let blocks = blocks_of(&LOOP);
    assert_eq!(blocks.len(), 4);
    assert_eq!(block(&blocks[0]), (0, 0, vec![Opcode::Const4], vec![1], vec![]));
    assert_eq!(block(&blocks[1]), (1, 2, vec![Opcode::IfEqz], vec![3, 2], vec![0, 2]));
    assert_eq!(
        block(&blocks[2]),
        (3, 4, vec![Opcode::AddInt2addr, Opcode::Goto], vec![1], vec![1])
    );
    assert_eq!(block(&blocks[3]), (5, 5, vec![Opcode::ReturnVoid], vec![], vec![1]));
}

#[test]
fn every_edge_is_held_at_both_ends() {
    for code in [&LOOP[..], &SWITCH[..], &NESTED[..]] {
        let blocks = blocks_of(code);
        for (u, b) in blocks.iter().enumerate() {
            assert!(b.start <= b.end || u == blocks.len() - 1);
            for (v, c) in blocks.iter().enumerate() {
                let forth = b.successors.iter().filter(|x| **x == v).count();
                let back = c.predecessors.iter().filter(|x| **x == u).count();
                assert_eq!(forth, back);
                assert!(u == v || b.start != c.start);
            }
        }
    }
}

#[test]
fn dominators_of_a_loop() {
    let blocks = blocks_of(&LOOP);
    let sets = dominators(&blocks);
    assert_eq!(
        sets,
        vec![
            vec![true, false, false, false],
            vec![true, true, false, false],
            vec![true, true, true, false],
            vec![true, true, false, true],
        ]
    );
}

#[test]
fn dominator_sets_solve_their_equations() {
    for code in [&LOOP[..], &SWITCH[..], &NESTED[..]] {
        let blocks = blocks_of(code);
        let sets = dominators(&blocks);
        let n = blocks.len();
        assert_eq!(sets.len(), n);
        for i in 0..n {
            assert_eq!(sets[i].len(), n);
            for j in 0..n {
                let expected = if i == 0 {
                    j == 0
                } else if blocks[i].predecessors.is_empty() {
                    true
                } else {
                    j == i || blocks[i].predecessors.iter().all(|p| sets[*p][j])
                };
                assert_eq!(sets[i][j], expected, "{i} {j}");
            }
        }
    }
}

#[test]
fn natural_loop_of_a_loop() {
    let blocks = blocks_of(&LOOP);
    let sets = dominators(&blocks);
    let loops = natural_loops(&blocks, &sets);
    assert_eq!(loops.len(), 1);
    assert_eq!(loops[0].header, 1);
    assert_eq!(loops[0].blocks, vec![1, 2]);
    assert!(loops[0].contains(1) && loops[0].contains(2));
    assert!(!loops[0].contains(0) && !loops[0].contains(3));
    let again = natural_loop(&blocks, 1, 2);
    assert_eq!(again.blocks, vec![1, 2]);
}

// 0: packed-switch +4   3: return-void   4: payload with the targets 3 and 10
const SWITCH: [u16; 12] = [0x002b, 0x0004, 0x0000, 0x000e, 0x0100, 2, 0, 0, 3, 0, 10, 0];

#[test]
fn a_switch_gets_the_targets_of_its_payload() {
    let graph = build(&SWITCH).unwrap();
    assert_eq!(graph.len(), 2);
    for a in 0..12 {
        assert_eq!(graph.is_leader(a), [0, 3, 10].contains(&a), "{a}");
    }
    let blocks = BasicBlock::from_method_cfg(graph).unwrap();
    assert_eq!(blocks.len(), 3);
    assert_eq!(block(&blocks[0]), (0, 2, vec![Opcode::PackedSwitch], vec![1, 2, 1], vec![]));
    assert_eq!(block(&blocks[1]), (3, 9, vec![Opcode::ReturnVoid], vec![], vec![0, 0]));
    // the last leader lies behind the last instruction
    assert_eq!(block(&blocks[2]), (10, 3, vec![], vec![], vec![0]));
    let sets = dominators(&blocks);
    assert_eq!(sets[1], vec![true, true, false]);
    assert_eq!(sets[2], vec![true, false, true]);
    assert!(natural_loops(&blocks, &sets).is_empty());
}

#[test]
fn a_payload_without_a_switch_is_refused() {
    let mut graph = MethodControlFlowGraph::new();
    let payload = || Instruction::SwitchPayload { kv: SwitchTable::new(), code_units: 4 };
    assert_eq!(
        graph.add_instruction(7, payload()),
        Err(CallGraphError::MissingSwitchOrigin(7))
    );
    assert_eq!(graph.len(), 0);
    // with a switch that refers to it, it is taken, and only once
    let switch = Instruction::Regular {
        op: Opcode::SparseSwitch,
        format: Format::F31t(F31t { va: 0, offset: 7 }),
    };
    assert_eq!(graph.add_instruction(0, switch), Ok(()));
    assert_eq!(graph.add_instruction(7, payload()), Ok(()));
    assert_eq!(
        graph.add_instruction(7, payload()),
        Err(CallGraphError::MissingSwitchOrigin(7))
    );
    let blocks = BasicBlock::from_method_cfg(graph).unwrap();
    assert_eq!(blocks.len(), 2);
    assert_eq!(block(&blocks[0]), (0, 2, vec![Opcode::SparseSwitch], vec![1], vec![]));
}

#[test]
fn a_switch_without_a_payload_has_no_blocks() {
    let graph = build(&SWITCH[..4]).unwrap();
    assert_eq!(
        BasicBlock::from_method_cfg(graph).err(),
        Some(CallGraphError::MissingSwitchOrigin(0))
    );
}

#[test]
fn a_jump_needs_an_offset() {
    let mut graph = MethodControlFlowGraph::new();
    let bad = Instruction::Regular { op: Opcode::Goto, format: Format::F11x(F11x { va: 0 }) };
    assert_eq!(
        graph.add_instruction(0, bad),
        Err(CallGraphError::InstructionError(InstructionError::BadFormat(Opcode::Goto)))
    );
    assert_eq!(graph.len(), 0);
    assert!(!graph.is_leader(0));
    assert_eq!(
        MethodControlFlowGraph::target(Opcode::Goto, 10, &Format::F10t(F10t { offset: -3 })),
        Ok(7)
    );
    assert_eq!(
        MethodControlFlowGraph::target(Opcode::Goto, 1, &Format::F10t(F10t { offset: -3 })),
        Ok(u32::MAX - 1)
    );
    assert_eq!(
        MethodControlFlowGraph::target(Opcode::IfEq, 1, &Format::F10x),
        Err(CallGraphError::InstructionError(InstructionError::BadFormat(Opcode::IfEq)))
    );
}

#[test]
fn no_instructions_no_blocks() {
    let blocks = BasicBlock::from_method_cfg(MethodControlFlowGraph::default()).unwrap();
    assert!(blocks.is_empty());
    assert!(dominators(&blocks).is_empty());
    // fill-array data and its instruction add no leader and no edge
    let code = [0x0026u16, 0x0004, 0x0000, 0x000e, 0x0300, 1, 1, 0, 0x0007];
    let graph = build(&code).unwrap();
    assert!(graph.is_leader(0) && !graph.is_leader(3) && !graph.is_leader(4));
    let blocks = BasicBlock::from_method_cfg(graph).unwrap();
    assert_eq!(blocks.len(), 1);
    assert_eq!(
        block(&blocks[0]),
        (0, 3, vec![Opcode::FillArrayData, Opcode::ReturnVoid], vec![], vec![])
    );
}

// an outer loop around an inner loop
// 0: nop  1: if-eqz +6 (->7)  3: if-nez +3 (->6)  5: goto -2 (->3)
// 6: goto -5 (->1)  7: return-void
const NESTED: [u16; 8] = [
    0x0000, 0x0038, 0x0006, 0x0039, 0x0003, 0xfe28, 0xfb28, 0x000e,
];

#[test]
fn nested_loops() {
    let blocks = blocks_of(&NESTED);
    let starts: Vec<u32> = blocks.iter().map(|b| b.start).collect();
    assert_eq!(starts, vec![0, 1, 3, 5, 6, 7]);
    assert_eq!(block(&blocks[1]), (1, 2, vec![Opcode::IfEqz], vec![5, 2], vec![0, 4]));
    assert_eq!(block(&blocks[2]), (3, 4, vec![Opcode::IfNez], vec![4, 3], vec![1, 3]));
    assert_eq!(block(&blocks[3]), (5, 5, vec![Opcode::Goto], vec![2], vec![2]));
    assert_eq!(block(&blocks[4]), (6, 6, vec![Opcode::Goto], vec![1], vec![2]));
    assert_eq!(block(&blocks[5]), (7, 7, vec![Opcode::ReturnVoid], vec![], vec![1]));
    let sets = dominators(&blocks);
    let members = |row: &Vec<bool>| -> Vec<usize> {
        row.iter().enumerate().filter(|(_, b)| **b).map(|(i, _)| i).collect()
    };
    assert_eq!(members(&sets[0]), vec![0]);
    assert_eq!(members(&sets[1]), vec![0, 1]);
    assert_eq!(members(&sets[2]), vec![0, 1, 2]);
    assert_eq!(members(&sets[3]), vec![0, 1, 2, 3]);
    assert_eq!(members(&sets[4]), vec![0, 1, 2, 4]);
    assert_eq!(members(&sets[5]), vec![0, 1, 5]);
    let loops = natural_loops(&blocks, &sets);
    let found: Vec<(usize, Vec<usize>)> = loops
        .iter()
        .map(|l| {
            let mut b = l.blocks.clone();
            b.sort();
            (l.header, b)
        })
        .collect();
    assert_eq!(found, vec![(2, vec![2, 3]), (1, vec![1, 2, 3, 4])]);
    // in every loop the header is reached from every block inside the loop
    for l in &loops {
        assert!(l.contains(l.header));
        for b in &l.blocks {
            let mut seen = vec![*b];
            let mut at = 0;
            while at < seen.len() {
                for s in &blocks[seen[at]].successors {
                    if l.contains(*s) && !seen.contains(s) {
                        seen.push(*s);
                    }
                }
                at += 1;
            }
            assert!(seen.contains(&l.header));
        }
    }
}

#[test]
fn the_last_instruction_of_a_block_gives_its_exits() {
    // 0: goto +2   1: nop   2: return-void
    // nothing leads to 1, so it is no leader and closes the first block
    let code = [0x0228u16, 0x0000, 0x000e];
    let blocks = blocks_of(&code);
    assert_eq!(blocks.len(), 2);
    assert_eq!(block(&blocks[0]), (0, 1, vec![Opcode::Goto, Opcode::Nop], vec![1], vec![]));
    assert_eq!(block(&blocks[1]), (2, 2, vec![Opcode::ReturnVoid], vec![], vec![0]));
    let sets = dominators(&blocks);
    assert_eq!(sets, vec![vec![true, false], vec![true, true]]);
}

#[test]
fn a_block_without_predecessors_keeps_every_block() {
    // 0: return-void   1: if-eqz +2 (->3)   3: return-void
    let code = [0x000eu16, 0x0038, 0x0002, 0x000e];
    let blocks = blocks_of(&code);
    assert_eq!(blocks.len(), 2);
    assert_eq!(
        block(&blocks[0]),
        (0, 2, vec![Opcode::ReturnVoid, Opcode::IfEqz], vec![1, 1], vec![])
    );
    assert_eq!(block(&blocks[1]), (3, 3, vec![Opcode::ReturnVoid], vec![], vec![0, 0]));
    // a graph by hand: the block 1 has no predecessor
    let by_hand = |start, successors: Vec<usize>, predecessors: Vec<usize>| BasicBlock {
        start,
        end: start,
        instructions: vec![],
        successors,
        predecessors,
    };
    let blocks = vec![
        by_hand(0, vec![2], vec![]),
        by_hand(1, vec![2], vec![]),
        by_hand(2, vec![], vec![0, 1]),
    ];
    let sets = dominators(&blocks);
    assert_eq!(
        sets,
        vec![
            vec![true, false, false],
            vec![true, true, true],
            vec![true, false, true],
        ]
    );
}

#[test]
fn loops_by_hand() {
    let mut l = Loop::new(4);
    assert_eq!((l.header, l.blocks.clone()), (4, vec![4]));
    assert!(l.contains(4) && !l.contains(2));
    l.add_block(2);
    assert!(l.contains(2));
    assert_eq!(l.blocks, vec![4, 2]);
}
