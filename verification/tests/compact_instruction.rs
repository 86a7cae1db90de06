use dexompiler::dex::{Instruction, InstructionError, Opcode};

#[test]
fn test_empty_bytecode() {
    let code: [u16; 0] = [];
    let result = Instruction::try_from_code(&code, 0);
    assert!(matches!(result, Ok(None)));
}

// Test a valid opcode that doesn't require additional bytes
#[test]
fn test_valid_opcode() {
    let code: [u16; 1] = [0x01];
    let result = Instruction::try_from_code(&code, 0);
    assert!(matches!(
        result,
        Ok(Some((
            Instruction {
                opcode: Opcode::Move,
                m_idx: None
            },
            1
        )))
    ));
}

// Test bad opcode case
#[test]
fn test_bad_opcode() {
    let code: [u16; 1] = [0x3E];
    let result = Instruction::try_from_code(&code, 0);
    assert!(matches!(result, Err(InstructionError::BadOpcode(0, 0x3E))));
}

// Test a case where bytecode is too short for the given opcode
#[test]
fn test_too_short() {
    let code: [u16; 1] = [0x6E];
    let result = Instruction::try_from_code(&code, 0);
    if let Err(InstructionError::TooShort { offset, opcode, expected, actual }) = result {
        assert_eq!(offset, 0);
        assert_eq!(opcode, Opcode::InvokeVirtual);
        assert_eq!(expected, 3);
        assert_eq!(actual, 1);
    } else {
        panic!("Expected an error found {result:?}");
    }
}

// Test an invoke opcode with arguments
#[test]
fn test_invoke_args() {
    let code: [u16; 3] = [0x6E, 0x06, 0x00];
    let (inst, length) = Instruction::try_from_code(&code, 0).unwrap().unwrap();
    assert_eq!(length, 3);
    assert_eq!(
        inst,
        Instruction {
            opcode: Opcode::InvokeVirtual,
            m_idx: Some(6)
        }
    );
}

#[test]
fn compact_stops_at_payload_tables() {
    for ident in 1u16..=3 {
        let code = [ident << 8, 0, 0, 0];
        assert_eq!(Instruction::try_from_code(&code, 0), Ok(None));
    }
    let code = [0x0400u16];
    assert_eq!(
        Instruction::try_from_code(&code, 0),
        Err(InstructionError::BadPayload(0))
    );
}

#[test]
fn compact_method_index_only_for_invokes() {
    // invoke-virtual/range, invoke-polymorphic and its range form carry one
    let code = [0x0074u16, 0x0011, 0x0000];
    let (inst, n) = Instruction::try_from_code(&code, 0).unwrap().unwrap();
    assert_eq!((inst.opcode, inst.m_idx, n), (Opcode::InvokeVirtualRange, Some(0x11), 3));
    let code = [0x00FAu16, 0x0021, 0x0000, 0x0002];
    let (inst, n) = Instruction::try_from_code(&code, 0).unwrap().unwrap();
    assert_eq!((inst.opcode, inst.m_idx, n), (Opcode::InvokePolymorphic, Some(0x21), 4));
    let code = [0x00FBu16, 0x0022, 0x0000, 0x0002];
    let (inst, n) = Instruction::try_from_code(&code, 0).unwrap().unwrap();
    assert_eq!((inst.opcode, inst.m_idx, n), (Opcode::InvokePolymorphicRange, Some(0x22), 4));
    // filled-new-array and invoke-custom share the layout and carry none
    let code = [0x0024u16, 0x0007, 0x0000];
    let (inst, n) = Instruction::try_from_code(&code, 0).unwrap().unwrap();
    assert_eq!((inst.opcode, inst.m_idx, n), (Opcode::FilledNewArray, None, 3));
    let code = [0x00FCu16, 0x0007, 0x0000];
    let (inst, n) = Instruction::try_from_code(&code, 0).unwrap().unwrap();
    assert_eq!((inst.opcode, inst.m_idx, n), (Opcode::InvokeCustom, None, 3));
}

#[test]
fn compact_decodes_at_an_offset() {
    let code = [0x000Eu16, 0x1070, 0x0003, 0x0000, 0x000E];
    let (inst, n) = Instruction::try_from_code(&code, 1).unwrap().unwrap();
    assert_eq!((inst.opcode, inst.m_idx, n), (Opcode::InvokeDirect, Some(3), 3));
    let (inst, n) = Instruction::try_from_code(&code, 4).unwrap().unwrap();
    assert_eq!((inst.opcode, inst.m_idx, n), (Opcode::ReturnVoid, None, 1));
    assert_eq!(Instruction::try_from_code(&code, 5), Ok(None));
    assert_eq!(Instruction::try_from_code(&code, 9), Ok(None));
}
