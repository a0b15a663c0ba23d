use bytevm::decode::decode_at;
use bytevm::decode::decode_immediate_at;
use bytevm::Immediate;
use bytevm::Instruction;
use bytevm::VirtualMachine;
use bytevm::VmError;

#[test]
fn zero_operand_opcodes_take_one_byte() {
    assert_eq!(decode_at(&vec![0], 0), Ok((Instruction::NOP(), 1)));
    assert_eq!(decode_at(&vec![21], 0), Ok((Instruction::RET(), 1)));
    assert_eq!(decode_at(&vec![22], 0), Ok((Instruction::HALT(), 1)));
}

#[test]
fn unknown_opcode_decodes_as_nop_taking_one_byte() {
    assert_eq!(decode_at(&vec![30, 9, 9], 0), Ok((Instruction::NOP(), 1)));
    assert_eq!(decode_at(&vec![255], 0), Ok((Instruction::NOP(), 1)));
}

#[test]
fn single_operand_opcodes_take_two_bytes() {
    assert_eq!(decode_at(&vec![3, 5], 0), Ok((Instruction::JMP(5), 2)));
    assert_eq!(decode_at(&vec![4, 1], 0), Ok((Instruction::JE(1), 2)));
    assert_eq!(decode_at(&vec![5, 2], 0), Ok((Instruction::JNE(2), 2)));
    assert_eq!(decode_at(&vec![7, 3], 0), Ok((Instruction::PRINTR(3), 2)));
    assert_eq!(decode_at(&vec![8, 4], 0), Ok((Instruction::PRINTV(4), 2)));
    assert_eq!(decode_at(&vec![10, 6], 0), Ok((Instruction::VLOAD(6), 2)));
    assert_eq!(decode_at(&vec![18, 7], 0), Ok((Instruction::VPUSHR(7), 2)));
    assert_eq!(decode_at(&vec![19, 0], 0), Ok((Instruction::VPOP(0), 2)));
    assert_eq!(decode_at(&vec![20, 1], 0), Ok((Instruction::CALL(1), 2)));
    assert_eq!(decode_at(&vec![23, 2], 0), Ok((Instruction::JG(2), 2)));
    assert_eq!(decode_at(&vec![24, 3], 0), Ok((Instruction::JL(3), 2)));
}

#[test]
fn double_operand_opcodes_take_three_bytes() {
    assert_eq!(decode_at(&vec![2, 1, 2], 0), Ok((Instruction::MOVR(1, 2), 3)));
    assert_eq!(decode_at(&vec![6, 0, 1], 0), Ok((Instruction::CMP(0, 1), 3)));
    assert_eq!(decode_at(&vec![11, 0, 1], 0), Ok((Instruction::ADD(0, 1), 3)));
    assert_eq!(decode_at(&vec![12, 0, 1], 0), Ok((Instruction::SUB(0, 1), 3)));
    assert_eq!(decode_at(&vec![13, 0, 1], 0), Ok((Instruction::MUL(0, 1), 3)));
    assert_eq!(decode_at(&vec![14, 0, 1], 0), Ok((Instruction::DIV(0, 1), 3)));
    assert_eq!(decode_at(&vec![15, 9, 1], 0), Ok((Instruction::VSTORER(9, 1), 3)));
    assert_eq!(decode_at(&vec![16, 1, 9], 0), Ok((Instruction::VLOADR(1, 9), 3)));
    assert_eq!(decode_at(&vec![25, 0, 1], 0), Ok((Instruction::AND(0, 1), 3)));
    assert_eq!(decode_at(&vec![26, 0, 1], 0), Ok((Instruction::OR(0, 1), 3)));
    assert_eq!(decode_at(&vec![27, 0, 1], 0), Ok((Instruction::XOR(0, 1), 3)));
}

#[test]
fn immediate_tags_take_tag_plus_width_bytes() {
    assert_eq!(decode_immediate_at(&vec![0, 200], 0), Ok((Immediate::U8(200), 2)));
    assert_eq!(decode_immediate_at(&vec![1, 0xff], 0), Ok((Immediate::I8(-1), 2)));
    assert_eq!(decode_immediate_at(&vec![2, 0x34, 0x12], 0), Ok((Immediate::U16(0x1234), 3)));
    assert_eq!(decode_immediate_at(&vec![3, 0xfe, 0xff], 0), Ok((Immediate::I16(-2), 3)));
    assert_eq!(
        decode_immediate_at(&vec![4, 0x78, 0x56, 0x34, 0x12], 0),
        Ok((Immediate::U32(0x12345678), 5))
    );
    assert_eq!(
        decode_immediate_at(&vec![5, 0xff, 0xff, 0xff, 0xff], 0),
        Ok((Immediate::I32(-1), 5))
    );
    assert_eq!(
        decode_immediate_at(&vec![6, 1, 2, 3, 4, 5, 6, 7, 8], 0),
        Ok((Immediate::U64(0x0807060504030201), 9))
    );
    assert_eq!(
        decode_immediate_at(&vec![7, 0xfd, 0xff, 0xff, 0xff, 0xff, 0xff, 0xff, 0xff], 0),
        Ok((Immediate::I64(-3), 9))
    );
}

#[test]
fn float_immediates_reproduce_exact_bits() {
    let f = 3.5f32;
    let b = f.to_bits().to_le_bytes();
    let code = vec![8, b[0], b[1], b[2], b[3]];
    assert_eq!(decode_immediate_at(&code, 0), Ok((Immediate::F32(f.to_bits()), 5)));

    let d = -0.1f64;
    let b = d.to_bits().to_le_bytes();
    let code = vec![9, b[0], b[1], b[2], b[3], b[4], b[5], b[6], b[7]];
    assert_eq!(decode_immediate_at(&code, 0), Ok((Immediate::F64(d.to_bits()), 9)));
}

#[test]
fn unknown_tag_decodes_as_absent_taking_one_byte() {
    assert_eq!(decode_immediate_at(&vec![10, 1, 2], 0), Ok((Immediate::Absent, 1)));
    assert_eq!(decode_immediate_at(&vec![255], 0), Ok((Immediate::Absent, 1)));
}

#[test]
fn truncated_operands_are_an_error() {
    assert_eq!(decode_at(&vec![1, 0], 0), Err(VmError::TruncatedCode));
    assert_eq!(decode_at(&vec![3], 0), Err(VmError::TruncatedCode));
    assert_eq!(decode_at(&vec![2, 1], 0), Err(VmError::TruncatedCode));
    assert_eq!(decode_immediate_at(&vec![2, 0x34], 0), Err(VmError::TruncatedCode));
    assert_eq!(decode_immediate_at(&vec![], 0), Err(VmError::TruncatedCode));
}

#[test]
fn machine_decode_moves_pointer_to_last_byte() {
    let mut vm = VirtualMachine::new(vec![1, 0, 2, 0x34, 0x12, 22], 0);
    let i = vm.decode();
    assert_eq!(i, Ok(Instruction::MOV(0, Immediate::U16(0x1234))));
    assert_eq!(vm.ip(), 4);
}

#[test]
fn machine_decode_immediate_reads_past_pointer() {
    // the immediate's tag sits one byte past the current pointer
    let mut vm = VirtualMachine::new(vec![99, 0, 7], 0);
    let v = vm.decode_immediate();
    assert_eq!(v, Ok(Immediate::U8(7)));
    assert_eq!(vm.ip(), 2);
}
