use dexompiler::instruction::bits;
use dexompiler::instruction::format::{
    F10t, F11n, F11x, F12x, F20bc, F20t, F21c, F21h, F21s, F21t, F22b, F22c, F22cs, F22s, F22t,
    F22x, F23x, F30t, F31c, F31i, F31t, F32x, F35c, F35mi, F35ms, F3rc, F3rmi, F3rms, F45cc, F4rcc,
    F51l,
};
use dexompiler::instruction::{
    Format, FormatKind, Instruction, InstructionError, Opcode, SwitchTable,
};

fn regular(code: &[u16]) -> (Opcode, Format, usize) {
    match Instruction::try_from_code(code, 0) {
        Ok(Some((Instruction::Regular { op, format }, n))) => (op, format, n),
        other => panic!("no regular instruction: {other:?}"),
    }
}

#[test]
fn empty_stream_gives_nothing() {
    assert_eq!(Instruction::try_from_code(&[], 0), Ok(None));
    assert_eq!(Instruction::try_from_code(&[0x000e], 1), Ok(None));
    assert_eq!(Instruction::try_from_code(&[0x000e], 7), Ok(None));
}

#[test]
fn nop_is_one_unit_without_operands() {
    assert_eq!(regular(&[0x0000]), (Opcode::Nop, Format::F10x, 1));
    assert_eq!(regular(&[0x000e, 0xffff]), (Opcode::ReturnVoid, Format::F10x, 1));
}

#[test]
fn reserved_bytes_are_bad_opcodes() {
    for byte in (0x3eu16..=0x43).chain([0x73, 0x79, 0x7a]).chain(0xe3..=0xf9) {
        assert_eq!(
            Instruction::try_from_code(&[0x000e, byte | 0x1200, 0, 0, 0, 0], 1),
            Err(InstructionError::BadOpcode(1, byte as u8))
        );
        assert_eq!(Opcode::from_u8(byte as u8), None);
    }
    assert_eq!(
        Instruction::try_from_code(&[0x003e], 0),
        Err(InstructionError::BadOpcode(0, 0x3e))
    );
}

#[test]
fn truncated_invoke_is_too_short() {
    assert_eq!(
        Instruction::try_from_code(&[0x006e], 0),
        Err(InstructionError::TooShort {
            offset: 0,
            opcode: Opcode::InvokeVirtual,
            expected: 3,
            actual: 1
        })
    );
    assert_eq!(
        Instruction::try_from_code(&[0x0000, 0x0018, 1, 2, 3], 1),
        Err(InstructionError::TooShort {
            offset: 1,
            opcode: Opcode::ConstWide,
            expected: 5,
            actual: 4
        })
    );
}

#[test]
fn invoke_virtual_carries_its_method_index() {
    let (op, format, n) = regular(&[0x006e, 0x0006, 0x0000]);
    assert_eq!((op, n), (Opcode::InvokeVirtual, 3));
    assert_eq!(format.as_35c().unwrap().idx, 6);
    assert_eq!(format.method_index(), Some(6));
    assert_eq!(
        dexompiler::dex::Instruction::from_decoded(&Instruction::Regular { op, format }),
        Some(dexompiler::dex::Instruction { opcode: Opcode::InvokeVirtual, m_idx: Some(6) })
    );
}

#[test]
fn every_opcode_has_the_length_of_its_layout() {
    let code = [0u16; 5];
    for byte in 0u16..=0xff {
        let mut code = code;
        code[0] = byte;
        match Opcode::from_u8(byte as u8) {
            None => assert_eq!(
                Instruction::try_from_code(&code, 0),
                Err(InstructionError::BadOpcode(0, byte as u8))
            ),
            Some(op) => {
                assert_eq!(op.to_u8(), byte as u8);
                let (decoded, format, n) = regular(&code);
                assert_eq!(decoded, op);
                assert_eq!(n, format.len());
                assert_eq!(format.format_kind(), op.format_kind());
                assert_eq!(n, op.format_kind().len());
                assert!(1 <= n && n <= 5);
                assert_eq!(op.is_invoke(), format.method_index().is_some() && byte != 0x24 && byte != 0x25 && byte != 0xfc && byte != 0xfd);
                // one unit less is too short
                if n > 1 {
                    assert_eq!(
                        Instruction::try_from_code(&code[..n - 1], 0),
                        Err(InstructionError::TooShort {
                            offset: 0,
                            opcode: op,
                            expected: n,
                            actual: n - 1
                        })
                    );
                }
            }
        }
    }
}

#[test]
fn the_opcode_table_assigns_the_layouts() {
    let table: [(&[u8], FormatKind); 12] = [
        (&[0x01, 0x04, 0x07, 0x21, 0x7b, 0x8f, 0xb0, 0xcf], FormatKind::F12x),
        (&[0x0a, 0x0d, 0x0f, 0x11, 0x1d, 0x1e, 0x27], FormatKind::F11x),
        (&[0x00, 0x0e], FormatKind::F10x),
        (&[0x1a, 0x1c, 0x1f, 0x22, 0xfe, 0xff, 0x60, 0x6d], FormatKind::F21c),
        (&[0x20, 0x23, 0x52, 0x5f], FormatKind::F22c),
        (&[0x24, 0x6e, 0x72, 0xfc], FormatKind::F35c),
        (&[0x25, 0x74, 0x78, 0xfd], FormatKind::F3rc),
        (&[0x26, 0x2b, 0x2c], FormatKind::F31t),
        (&[0x2d, 0x31, 0x44, 0x51, 0x90, 0xaf], FormatKind::F23x),
        (&[0x32, 0x37], FormatKind::F22t),
        (&[0x38, 0x3d], FormatKind::F21t),
        (&[0xd8, 0xe2], FormatKind::F22b),
    ];
    for (bytes, kind) in table {
        for b in bytes {
            assert_eq!(Opcode::from_u8(*b).unwrap().format_kind(), kind, "{b:#x}");
        }
    }
    assert_eq!(Opcode::from_u8(0x62), Some(Opcode::SgetObject));
    assert_eq!(Opcode::from_u8(0x2b), Some(Opcode::PackedSwitch));
    assert_eq!(Opcode::from_u8(0xd1), Some(Opcode::RsubInt));
    assert_eq!(Opcode::from_u8(0xe2), Some(Opcode::UshrIntLit8));
    assert_eq!(Opcode::from_u8(0xff), Some(Opcode::ConstMethodType));
}

#[test]
fn operands_are_unpacked_as_the_layouts_say() {
    // A is the high nibble of the immediate byte, B the low one
    assert_eq!(regular(&[0x2101]).1, Format::F12x(F12x { va: 2, vb: 1 }));
    assert_eq!(regular(&[0xa712]).1, Format::F11n(F11n { va: 10, literal: 7 }));
    assert_eq!(regular(&[0xfe0a]).1, Format::F11x(F11x { va: 0xfe }));
    assert_eq!(regular(&[0xfe28]).1, Format::F10t(F10t { offset: -2 }));
    assert_eq!(regular(&[0x7f28]).1, Format::F10t(F10t { offset: 127 }));
    assert_eq!(regular(&[0x0029, 0x8000]).1, Format::F20t(F20t { offset: -32768 }));
    assert_eq!(regular(&[0x0502, 0xabcd]).1, Format::F22x(F22x { va: 5, vb: 0xabcd }));
    assert_eq!(regular(&[0x0338, 0xfffd]).1, Format::F21t(F21t { va: 3, offset: -3 }));
    assert_eq!(regular(&[0x0113, 0xffff]).1, Format::F21s(F21s { va: 1, literal: -1 }));
    assert_eq!(regular(&[0x0115, 0x7fff]).1, Format::F21h(F21h { va: 1, literal: 0x7fff }));
    assert_eq!(regular(&[0x091a, 0x1234]).1, Format::F21c(F21c { dst: 9, idx: 0x1234 }));
    // the less significant byte of the second unit comes first
    assert_eq!(regular(&[0x0190, 0x0302]).1, Format::F23x(F23x { va: 1, vb: 2, vc: 3 }));
    assert_eq!(regular(&[0x01d8, 0x8002]).1, Format::F22b(F22b { va: 1, vb: 2, literal: -128 }));
    assert_eq!(regular(&[0x1232, 0x0004]).1, Format::F22t(F22t { va: 1, vb: 2, offset: 4 }));
    assert_eq!(regular(&[0x12d0, 0xfffe]).1, Format::F22s(F22s { va: 1, vb: 2, literal: -2 }));
    assert_eq!(regular(&[0x1252, 0x0007]).1, Format::F22c(F22c { va: 1, vb: 2, idx: 7 }));
    assert_eq!(regular(&[0x0003, 0x0102, 0x0304]).1, Format::F32x(F32x { va: 0x0102, vb: 0x0304 }));
    // wider values are little-endian across the units
    assert_eq!(regular(&[0x002a, 0x0001, 0x0002]).1, Format::F30t(F30t { offset: 0x0002_0001 }));
    assert_eq!(regular(&[0x002a, 0xffff, 0xffff]).1, Format::F30t(F30t { offset: -1 }));
    assert_eq!(
        regular(&[0x0114, 0x5678, 0x1234]).1,
        Format::F31i(F31i { va: 1, literal: 0x1234_5678 })
    );
    assert_eq!(
        regular(&[0x012b, 0x0000, 0x8000]).1,
        Format::F31t(F31t { va: 1, offset: i32::MIN })
    );
    assert_eq!(
        regular(&[0x011b, 0xffff, 0xffff]).1,
        Format::F31c(F31c { va: 1, idx: 0xffff_ffff })
    );
    assert_eq!(
        regular(&[0x0118, 0x0001, 0x0002, 0x0003, 0x8004]).1,
        Format::F51l(F51l { va: 1, literal: 0x8004_0003_0002_0001u64 as i64 })
    );
    assert_eq!(
        regular(&[0x0118, 0x0001, 0x0002, 0x0003, 0x0004]).1,
        Format::F51l(F51l { va: 1, literal: 0x0004_0003_0002_0001 })
    );
    // the registers C to G of an invoke
    assert_eq!(
        regular(&[0x5a6e, 0x0102, 0x4321]).1,
        Format::F35c(F35c { argc: 5, args: [3, 4, 1, 2, 10], idx: 0x0102 })
    );
    assert_eq!(
        regular(&[0x0374, 0x0102, 0x0010]).1,
        Format::F3rc(F3rc { argc: 3, reg: 0x10, idx: 0x0102 })
    );
    assert_eq!(
        regular(&[0x21fa, 0x0102, 0x4321, 0x0007]).1,
        Format::F45cc(F45cc { argc: 2, vg: 1, args: [3, 4, 1, 2, 1], meth: 0x0102, proto: 7 })
    );
    assert_eq!(
        regular(&[0x02fb, 0x0102, 0x0010, 0x0007]).1,
        Format::F4rcc(F4rcc { argc: 2, reg: 0x10, meth: 0x0102, proto: 7 })
    );
}

#[test]
fn only_branching_layouts_have_an_offset() {
    assert_eq!(regular(&[0xfe28]).1.offset(), Some(-2));
    assert_eq!(regular(&[0x0029, 0x0010]).1.offset(), Some(16));
    assert_eq!(regular(&[0x0338, 0xfffd]).1.offset(), Some(-3));
    assert_eq!(regular(&[0x1232, 0x0004]).1.offset(), Some(4));
    assert_eq!(regular(&[0x002a, 0x0001, 0x0002]).1.offset(), Some(0x0002_0001));
    assert_eq!(regular(&[0x012b, 0x0005, 0x0000]).1.offset(), Some(5));
    assert_eq!(regular(&[0x0126, 0x0005, 0x0000]).1.offset(), Some(5));
    assert_eq!(regular(&[0x006e, 0x0006, 0x0000]).1.offset(), None);
    assert_eq!(regular(&[0x000e]).1.offset(), None);
}

#[test]
fn every_layout_has_its_accessor() {
    // one opcode of each layout that the opcode table uses
    let bytes: [u16; 25] = [
        0x01, 0x12, 0x0a, 0x28, 0x29, 0x02, 0x38, 0x13, 0x15, 0x1a, 0x90, 0xd8, 0x32, 0xd0, 0x52,
        0x2a, 0x03, 0x14, 0x26, 0x1b, 0x6e, 0x74, 0xfa, 0xfb, 0x18,
    ];
    for byte in bytes {
        let f = regular(&[byte, 0, 0, 0, 0]).1;
        let found = [
            f.as_12x().is_some(),
            f.as_11n().is_some(),
            f.as_11x().is_some(),
            f.as_10t().is_some(),
            f.as_20t().is_some(),
            f.as_22x().is_some(),
            f.as_21t().is_some(),
            f.as_21s().is_some(),
            f.as_21h().is_some(),
            f.as_21c().is_some(),
            f.as_23x().is_some(),
            f.as_22b().is_some(),
            f.as_22t().is_some(),
            f.as_22s().is_some(),
            f.as_22c().is_some(),
            f.as_30t().is_some(),
            f.as_32x().is_some(),
            f.as_31i().is_some(),
            f.as_31t().is_some(),
            f.as_31c().is_some(),
            f.as_35c().is_some(),
            f.as_3rc().is_some(),
            f.as_45cc().is_some(),
            f.as_4rcc().is_some(),
            f.as_51l().is_some(),
        ];
        let at = bytes.iter().position(|b| *b == byte).unwrap();
        for (i, hit) in found.iter().enumerate() {
            assert_eq!(*hit, i == at, "{byte:#x} {i}");
        }
        // no opcode has one of the layouts that are kept for optimized code
        assert!(f.as_20bc().is_none() && f.as_22cs().is_none() && f.as_35ms().is_none());
        assert!(f.as_35mi().is_none() && f.as_3rms().is_none() && f.as_3rmi().is_none());
    }
    let f = Format::F20bc(F20bc { va: 1, idx: 2 });
    assert_eq!((f.as_20bc(), f.len(), f.offset()), (Some(&F20bc { va: 1, idx: 2 }), 2, None));
    let f = Format::F22cs(F22cs { va: 1, vb: 2, idx: 3 });
    assert_eq!((f.as_22cs().map(|f| f.idx), f.len()), (Some(3), 2));
    let f = Format::F35ms(F35ms { va: 1, args: [0; 5], idx: 3 });
    assert_eq!((f.as_35ms().map(|f| f.idx), f.len()), (Some(3), 3));
    let f = Format::F35mi(F35mi { va: 1, args: [0; 5], idx: 3 });
    assert_eq!((f.as_35mi().map(|f| f.idx), f.len()), (Some(3), 3));
    let f = Format::F3rms(F3rms { va: 1, reg: 2, idx: 3 });
    assert_eq!((f.as_3rms().map(|f| f.reg), f.len()), (Some(2), 3));
    let f = Format::F3rmi(F3rmi { va: 1, reg: 2, idx: 3 });
    assert_eq!((f.as_3rmi().map(|f| f.reg), f.len(), f.method_index()), (Some(2), 3, None));
}

#[test]
fn accessors_give_the_operands_of_their_layout_only() {
    let f = regular(&[0x2101]).1;
    assert_eq!(f.as_12x(), Some(&F12x { va: 2, vb: 1 }));
    assert_eq!(f.as_11n(), None);
    assert_eq!(f.as_35c(), None);
    let f = regular(&[0x0118, 1, 2, 3, 4]).1;
    assert!(f.as_51l().is_some());
    assert_eq!(f.as_12x(), None);
    let f = regular(&[0x02fb, 0x0102, 0x0010, 0x0007]).1;
    assert_eq!(f.as_4rcc().map(|f| f.proto), Some(7));
    assert_eq!(f.as_45cc(), None);
    assert_eq!(Format::F10x.as_10t(), None);
    assert_eq!(Format::F10x.len(), 1);
}

fn table(pairs: &[(i32, i32)]) -> SwitchTable {
    let mut t = SwitchTable::new();
    for (k, v) in pairs {
        t.insert(*k, *v);
    }
    t
}

#[test]
fn packed_switch_payload() {
    // three cases from the key -1 on
    let code = [0x0100u16, 3, 0xffff, 0xffff, 10, 0, 0xfff0, 0xffff, 30, 0];
    let expected = Instruction::SwitchPayload {
        kv: table(&[(-1, 10), (0, -16), (1, 30)]),
        code_units: 10,
    };
    assert_eq!(Instruction::try_from_code(&code, 0), Ok(Some((expected, 10))));
    // the keys wrap around
    let code = [0x0100u16, 2, 0xffff, 0x7fff, 1, 0, 2, 0];
    let expected = Instruction::SwitchPayload {
        kv: table(&[(i32::MAX, 1), (i32::MIN, 2)]),
        code_units: 8,
    };
    assert_eq!(Instruction::try_from_code(&code, 0), Ok(Some((expected, 8))));
    // no case at all
    let code = [0x0100u16, 0, 5, 0];
    assert_eq!(
        Instruction::try_from_code(&code, 0),
        Ok(Some((Instruction::SwitchPayload { kv: SwitchTable::new(), code_units: 4 }, 4)))
    );
}

#[test]
fn sparse_switch_payload_has_its_keys_before_its_offsets() {
    let code = [0x0200u16, 2, 100, 0, 0xfffb, 0xffff, 7, 0, 9, 0];
    let expected = Instruction::SwitchPayload {
        kv: table(&[(100, 7), (-5, 9)]),
        code_units: 10,
    };
    let decoded = Instruction::try_from_code(&code, 0).unwrap().unwrap();
    assert_eq!(decoded, (expected, 10));
    if let Instruction::SwitchPayload { kv, .. } = decoded.0 {
        assert_eq!(kv.entries, vec![(-5, 9), (100, 7)]);
        assert_eq!(kv.get(100), Some(7));
        assert_eq!(kv.get(101), None);
        assert_eq!(kv.len(), 2);
    }
    // the later of two equal keys stays
    let code = [0x0200u16, 2, 4, 0, 4, 0, 7, 0, 9, 0];
    let decoded = Instruction::try_from_code(&code, 0).unwrap().unwrap();
    assert_eq!(
        decoded,
        (Instruction::SwitchPayload { kv: table(&[(4, 9)]), code_units: 10 }, 10)
    );
}

#[test]
fn fill_array_data_payload() {
    // three elements of two bytes
    let code = [0x0300u16, 2, 3, 0, 0x0201, 0x0403, 0x0605];
    let expected = Instruction::FillArrayPayload {
        element_width: 2,
        data: vec![vec![1, 2], vec![3, 4], vec![5, 6]],
        code_units: 7,
    };
    assert_eq!(Instruction::try_from_code(&code, 0), Ok(Some((expected, 7))));
    // three elements of one byte and a byte of padding
    let code = [0xffffu16, 0x0300, 1, 3, 0, 0x0201, 0x0003];
    let expected = Instruction::FillArrayPayload {
        element_width: 1,
        data: vec![vec![1], vec![2], vec![3]],
        code_units: 6,
    };
    assert_eq!(Instruction::try_from_code(&code, 1), Ok(Some((expected, 6))));
    // one element of three bytes
    let code = [0x0300u16, 3, 1, 0, 0x0201, 0x0003];
    let expected = Instruction::FillArrayPayload {
        element_width: 3,
        data: vec![vec![1, 2, 3]],
        code_units: 6,
    };
    assert_eq!(Instruction::try_from_code(&code, 0), Ok(Some((expected, 6))));
    // no element
    let code = [0x0300u16, 4, 0, 0];
    let expected = Instruction::FillArrayPayload { element_width: 4, data: vec![], code_units: 4 };
    assert_eq!(Instruction::try_from_code(&code, 0), Ok(Some((expected, 4))));
}

#[test]
fn malformed_payloads() {
    for ident in 4u16..=0xff {
        assert_eq!(
            Instruction::try_from_code(&[0, ident << 8], 1),
            Err(InstructionError::BadPayload(1))
        );
    }
    // elements without width
    assert_eq!(
        Instruction::try_from_code(&[0x0300, 0, 1, 0], 0),
        Err(InstructionError::BadPayload(0))
    );
    let short = |offset, expected, actual| {
        Err(InstructionError::TooShort { offset, opcode: Opcode::Nop, expected, actual })
    };
    assert_eq!(Instruction::try_from_code(&[0x0100], 0), short(0, 4, 1));
    assert_eq!(Instruction::try_from_code(&[0x0100, 2, 0, 0, 1, 0, 2], 0), short(0, 8, 7));
    assert_eq!(Instruction::try_from_code(&[0x0200], 0), short(0, 2, 1));
    assert_eq!(Instruction::try_from_code(&[0x0200, 1, 0, 0, 1], 0), short(0, 6, 5));
    assert_eq!(Instruction::try_from_code(&[0x0300, 1, 0], 0), short(0, 4, 3));
    assert_eq!(Instruction::try_from_code(&[0x0300, 2, 3, 0, 1, 2], 0), short(0, 7, 6));
    assert_eq!(
        Instruction::try_from_code(&[0x0300, 0xffff, 0xffff, 0xffff], 0),
        short(0, (0xffff_ffffusize * 0xffff + 1) / 2 + 4, 4)
    );
}

#[test]
fn a_decoded_span_decodes_to_itself() {
    let stream: Vec<u16> = vec![
        0x0000, 0x1070, 0x0003, 0x0000, 0x0118, 1, 2, 3, 4, 0x012b, 0x0006, 0x0000, 0x000e,
        0x0100, 2, 5, 0, 10, 0, 20, 0, 0x0300, 1, 3, 0, 0x0201, 0x0003, 0x0200, 1, 9, 0, 8, 0,
    ];
    let mut offset = 0;
    let mut count = 0;
    while let Some((instruction, n)) = Instruction::try_from_code(&stream, offset).unwrap() {
        assert!(n >= 1);
        let alone = Instruction::try_from_code(&stream[offset..offset + n], 0);
        assert_eq!(alone, Ok(Some((instruction, n))));
        offset += n;
        count += 1;
    }
    assert_eq!(offset, stream.len());
    assert_eq!(count, 8);
}

#[test]
fn splitting_and_joining_bits() {
    assert_eq!(bits::word_to_bytes(0xabcd), (0xcd, 0xab));
    assert_eq!(bits::byte_to_nibbles(0xab), (0xa, 0xb));
    assert_eq!(bits::word_to_nibbles(0xabcd), (0xc, 0xd, 0xa, 0xb));
    assert_eq!(bits::to_signed8(0x80), -128);
    assert_eq!(bits::to_signed8(0x7f), 127);
    assert_eq!(bits::to_signed16(0xffff), -1);
    assert_eq!(bits::to_signed32(0x8000_0000), i32::MIN);
    assert_eq!(bits::to_signed64(u64::MAX), -1);
    assert_eq!(bits::join_words(0x5678, 0x1234), 0x1234_5678);
    assert_eq!(bits::join_dwords(0x9abc_def0, 0x1234_5678), 0x1234_5678_9abc_def0);
}
