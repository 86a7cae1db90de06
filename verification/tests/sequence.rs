use dexompiler::dex::{DexClass, DexFile, DexMethod, MethodRef, ProtoRef};
use dexompiler::dex_parsing::traversal::{dfs, flatten_graph_dfs};
use dexompiler::dex_parsing::DexParseModel;
use dexompiler::instruction::definition::{
    BinopKind, CmpKind, IfTest, Instruction, InvokeKind, Op, OpType, UnopKind,
};
use dexompiler::instruction::raw::{Argument, Instruction as Raw, Type};
use dexompiler::instruction::{Format, InstructionError, Opcode};

fn sig(name: &str) -> MethodRef {
    MethodRef {
        class_type: Some("LC;".into()),
        name: Some(name.into()),
        proto: Some(ProtoRef { return_type: Some("V".into()), params_off: 0, params: None }),
    }
}

fn method(name: &str, code: Vec<u16>) -> DexMethod {
    DexMethod { name: name.into(), params: vec![], return_type: "V".into(), code: Some(code) }
}

// the methods a to d; a calls c and then b, b calls c, c calls a, d calls nothing
fn file() -> DexFile {
    let call = |i: u16| vec![0x0071u16, i, 0];
    let mut a = vec![0x0012];
    a.extend(call(2));
    a.extend(call(1));
    a.push(0x000e);
    let mut b = call(2);
    b.push(0x000f);
    let mut c = call(0);
    c.extend(call(7));
    DexFile {
        classes: vec![DexClass {
            class_type: "LC;".into(),
            java_name: "C".into(),
            methods: vec![
                method("a", a),
                method("b", b),
                method("empty", vec![]),
                method("broken", vec![0x000e, 0x0073]),
                method("c", c),
                method("d", vec![0x0000, 0x0000, 0x0000]),
            ],
        }],
        method_table: vec![Some(sig("a")), Some(sig("b")), Some(sig("c")), Some(sig("d"))],
    }
}

#[test]
fn methods_come_after_the_methods_they_call() {
    let model = DexParseModel::try_from_dexes(&[file()], 0);
    // collected: a = 0..=3, b = 4..=5, c = 6..=7, d = 8..=10
    // left in the order c, b, a, d
    assert_eq!(model.method_bounds, vec![(6, 7), (4, 5), (0, 3), (8, 10)]);
    assert_eq!(
        model.op_seq,
        vec![0x71, 0x71, 0x71, 0x0f, 0x12, 0x71, 0x71, 0x0e, 0x00, 0x00, 0x00]
    );
}

#[test]
fn the_cap_stops_the_collection() {
    // d would take the sequence beyond ten opcodes
    let model = DexParseModel::try_from_dexes(&[file()], 10);
    assert_eq!(model.method_bounds, vec![(6, 7), (4, 5), (0, 3)]);
    assert_eq!(model.op_seq.len(), 8);
    // b stops the collection, so c and d are not taken although d would fit
    let model = DexParseModel::try_from_dexes(&[file()], 5);
    assert_eq!(model.method_bounds, vec![(0, 3)]);
    assert_eq!(model.op_seq, vec![0x12, 0x71, 0x71, 0x0e]);
    let model = DexParseModel::try_from_dexes(&[file()], 3);
    assert_eq!(model, DexParseModel::default());
    // the next file is taken up as long as the cap is not reached
    let model = DexParseModel::try_from_dexes(&[file(), file()], 10);
    assert_eq!(model.method_bounds, vec![(6, 7), (4, 5), (0, 3)]);
    let model = DexParseModel::try_from_dexes(&[file(), file()], 12);
    assert_eq!(model.method_bounds, vec![(6, 7), (4, 5), (0, 3), (8, 10)]);
    let model = DexParseModel::try_from_dexes(&[file(), file()], 15);
    assert_eq!(model.method_bounds, vec![(6, 7), (4, 5), (0, 3), (8, 10), (11, 14)]);
    let model = DexParseModel::try_from_dexes(&[file(), file()], 0);
    assert_eq!(
        model.method_bounds,
        vec![(6, 7), (4, 5), (0, 3), (8, 10), (17, 18), (15, 16), (11, 14), (19, 21)]
    );
    assert_eq!(model.op_seq.len(), 22);
}

#[test]
fn pieces_of_the_sequence_in_a_new_order() {
    let ops: Vec<u8> = (10..20).collect();
    let sorted = DexParseModel::sort_opcode_sequence(&ops, &vec![(7, 9), (0, 0), (3, 2), (5, 10), (9, 9), (2, 4)]);
    assert_eq!(sorted, vec![17, 18, 19, 10, 19, 12, 13, 14]);
    assert_eq!(DexParseModel::pick_bounds(&vec![(0, 1), (2, 5)], &vec![1, 7, 0, 1]), vec![(2, 5), (0, 1), (2, 5)]);
}

#[test]
fn depth_first_order() {
    assert_eq!(flatten_graph_dfs(&vec![]), Vec::<usize>::new());
    assert_eq!(flatten_graph_dfs(&vec![vec![], vec![], vec![]]), vec![0, 1, 2]);
    // 0 -> 2 -> 1 -> 0 and 3 -> 1; the number 9 is no node
    let edges = vec![vec![2, 9], vec![0], vec![1, 2], vec![1]];
    assert_eq!(flatten_graph_dfs(&edges), vec![1, 2, 0, 3]);
    let mut visited = vec![false, true, false, false];
    let mut result = vec![7];
    dfs(&edges, 2, &mut visited, &mut result);
    assert_eq!(result, vec![7, 2]);
    assert_eq!(visited, vec![false, true, true, false]);
    dfs(&edges, 2, &mut visited, &mut result);
    dfs(&edges, 4, &mut visited, &mut result);
    assert_eq!(result, vec![7, 2]);
}

fn typed(code: &[u16]) -> Instruction {
    Instruction::try_from_code(code, 0).unwrap().unwrap()
}

#[test]
fn instructions_by_role() {
    assert_eq!(typed(&[0x0000]), Instruction::Nop);
    assert_eq!(typed(&[0x2101]), Instruction::Move { dst: 2, src: 1 });
    assert_eq!(typed(&[0x0503, 7, 9]), Instruction::Move16 { dst: 7, src: 9 });
    assert_eq!(typed(&[0x0114, 0xffff, 0xffff]), Instruction::Const { dst: 1, value: u32::MAX });
    assert_eq!(
        typed(&[0x0118, 0, 0, 0, 0x8000]),
        Instruction::ConstWide { dst: 1, value: 1 << 63 }
    );
    assert_eq!(typed(&[0xfe28]), Instruction::Goto { off: 0xfe });
    assert_eq!(typed(&[0x0126, 0xfffe, 0xffff]), Instruction::FillArrayData { arr: 1, off: 0xffff_fffe });
    assert_eq!(
        typed(&[0x0130, 0x0302]),
        Instruction::CmpKind { kind: CmpKind::GtDouble, dst: 1, src0: 2, src1: 3 }
    );
    assert_eq!(typed(&[0x1235, 0xfffe]), Instruction::IfTest { kind: IfTest::Ge, a: 1, b: 2, off: -2 });
    assert_eq!(typed(&[0x013d, 4]), Instruction::IfTestZ { kind: IfTest::Le, a: 1, off: 4 });
    assert_eq!(
        typed(&[0x0146, 0x0302]),
        Instruction::ArrayOp { kind: Op::Get, kind_type: OpType::Object, val: 1, arr: 2, idx: 3 }
    );
    assert_eq!(
        typed(&[0x014b, 0x0302]),
        Instruction::ArrayOp { kind: Op::Put, kind_type: OpType::Single, val: 1, arr: 2, idx: 3 }
    );
    assert_eq!(typed(&[0x125f, 9]), Instruction::InstanceOp { val: 1, obj: 2, idx: 9 });
    assert_eq!(typed(&[0x0162, 9]), Instruction::StaticOp { val: 1, idx: 9 });
    assert_eq!(
        typed(&[0x5a70, 0x0102, 0x4321]),
        Instruction::Invoke { kind: InvokeKind::Direct, argc: 5, idx: 0x0102, c: 3, d: 4, e: 1, f: 2, g: 10 }
    );
    assert_eq!(
        typed(&[0x0378, 0x0102, 0x0010]),
        Instruction::InvokeRange { kind: InvokeKind::Interface, argc: 3, idx: 0x0102, first: 0x10 }
    );
    assert_eq!(typed(&[0x128f]), Instruction::Unop { kind: UnopKind::IntToShort, dst: 1, src: 2 });
    assert_eq!(
        typed(&[0x01af, 0x0302]),
        Instruction::Binop { kind: BinopKind::RemDouble, dst: 1, src0: 2, src1: 3 }
    );
    assert_eq!(typed(&[0x12b0]), Instruction::Binop2Addr { kind: BinopKind::AddInt, dst: 1, src: 2 });
    assert_eq!(
        typed(&[0x12d1, 0xffff]),
        Instruction::BinopLit { kind: BinopKind::SubInt, dst: 1, src: 2, lit: -1 }
    );
    assert_eq!(
        typed(&[0x01e2, 0x8002]),
        Instruction::BinopLit { kind: BinopKind::UshrInt, dst: 1, src: 2, lit: -128 }
    );
    assert_eq!(
        typed(&[0x21fa, 0x0102, 0x4321, 7]),
        Instruction::InvokePolymorphic { argc: 2, midx: 0x0102, recv: 1, pidx: 7, d: 4, e: 1, f: 2, g: 1 }
    );
    assert_eq!(typed(&[0x01ff, 5]), Instruction::ConstMethodType { dst: 1, idx: 5 });
    // payloads and the end give nothing, errors stay errors
    assert_eq!(Instruction::try_from_code(&[0x0100, 0, 0, 0], 0), Ok(None));
    assert_eq!(Instruction::try_from_code(&[], 0), Ok(None));
    assert_eq!(Instruction::try_from_code(&[0x0073], 0), Err(InstructionError::BadOpcode(0, 0x73)));
    // operands in another layout than that of the opcode have no role
    assert_eq!(Instruction::from_regular(Opcode::Move, &Format::F10x), None);
    for byte in 0u16..=0xff {
        if let Some(op) = Opcode::from_u8(byte as u8) {
            let code = [byte, 0, 0, 0, 0];
            assert!(Instruction::try_from_code(&code, 0).unwrap().is_some(), "{op:?}");
        }
    }
}

fn raw(code: &[u16]) -> Raw {
    Raw::try_from_raw_bytecode(code, 0).unwrap().unwrap()
}

#[test]
fn instructions_with_flat_arguments() {
    let r = Raw::try_from_raw_bytecode(&[0x000e, 0x091a, 0x1234], 1).unwrap().unwrap();
    assert_eq!((r.opcode, r.length(), r.offset), (Opcode::ConstString, 2, 1));
    assert_eq!(
        r.arguments,
        vec![Argument::PackedRegister(9), Argument::ConstantPoolIndex16(Type::String, 0x1234)]
    );
    assert_eq!(raw(&[0x000e]).arguments, vec![]);
    assert_eq!(raw(&[0x2101]).arguments, vec![Argument::PackedRegister(0x21)]);
    assert_eq!(
        raw(&[0xa712]).arguments,
        vec![Argument::PackedRegister(10), Argument::ImmediateSignedNibble(7)]
    );
    assert_eq!(raw(&[0xfe28]).arguments, vec![Argument::BranchTarget8(-2)]);
    assert_eq!(
        raw(&[0x0115, 0x8000]).arguments,
        vec![Argument::PackedRegister(1), Argument::ImmediateSignedHat(-32768)]
    );
    assert_eq!(
        raw(&[0x011b, 2, 1]).arguments,
        vec![Argument::PackedRegister(1), Argument::ConstantPoolIndex32(Type::String, 0x0001_0002)]
    );
    assert_eq!(
        raw(&[0x0118, 1, 2, 3, 4]).arguments,
        vec![Argument::PackedRegister(1), Argument::ImmediateSigned64(0x0004_0003_0002_0001)]
    );
    assert_eq!(
        raw(&[0x01d8, 0xff02]).arguments,
        vec![
            Argument::PackedRegister(1),
            Argument::PackedRegister(2),
            Argument::ImmediateSignedByte(-1)
        ]
    );
    assert_eq!(
        raw(&[0x1232, 5]).arguments,
        vec![Argument::PackedRegister(1), Argument::PackedRegister(2), Argument::BranchTarget16(5)]
    );
    assert_eq!(
        raw(&[0x012b, 5, 0]).arguments,
        vec![Argument::PackedRegister(1), Argument::BranchTarget32(5)]
    );
    assert_eq!(
        raw(&[0x206e, 6, 0x0010]).arguments,
        vec![
            Argument::PackedRegister(0x20),
            Argument::ConstantPoolIndex16(Type::Method, 6),
            Argument::PackedRegister(0x10),
            Argument::PackedRegister(0)
        ]
    );
    assert_eq!(
        raw(&[0x02fb, 6, 0x0010, 3]).arguments,
        vec![
            Argument::PackedRegister(2),
            Argument::ConstantPoolIndex16(Type::Method, 6),
            Argument::WideRegister(0x10),
            Argument::ConstantPoolIndex16(Type::Prototype, 3)
        ]
    );
    let pools = [
        (0x1cu16, Type::Type),
        (0x52, Type::InstanceField),
        (0x6d, Type::StaticField),
        (0x24, Type::Type),
        (0xfc, Type::CallSite),
        (0xfe, Type::MethodHandle),
        (0xff, Type::MethodPrototype),
        (0x74, Type::Method),
    ];
    for (byte, pool) in pools {
        assert_eq!(raw(&[byte, 3, 0]).arguments[1], Argument::ConstantPoolIndex16(pool, 3), "{byte:#x}");
    }
    assert_eq!(Raw::try_from_raw_bytecode(&[0x0300, 1, 0, 0], 0), Ok(None));
    assert_eq!(Raw::try_from_raw_bytecode(&[0x0e], 1), Ok(None));
    assert_eq!(
        Raw::try_from_raw_bytecode(&[0x1a], 0),
        Err(InstructionError::TooShort { offset: 0, opcode: Opcode::ConstString, expected: 2, actual: 1 })
    );
}
