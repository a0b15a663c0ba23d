use bytevm::value::apply_binop;
use bytevm::value::immediate_eq;
use bytevm::value::immediate_gt;
use bytevm::BinOp;
use bytevm::FloatRequest;
use bytevm::FloatWidth;
use bytevm::Immediate;
use bytevm::RunOutcome;
use bytevm::VirtualMachine;
use bytevm::VmError;

const FUEL: u64 = 100_000;

#[test]
fn comparisons_follow_native_integer_semantics() {
    assert!(immediate_eq(Immediate::U8(5), Immediate::U8(5)));
    assert!(!immediate_eq(Immediate::U8(5), Immediate::U8(6)));
    assert!(immediate_gt(Immediate::I8(-1), Immediate::I8(-2)));
    assert!(!immediate_gt(Immediate::I8(-2), Immediate::I8(-1)));
    assert!(immediate_gt(Immediate::U64(u64::MAX), Immediate::U64(0)));
    assert!(immediate_eq(Immediate::I64(i64::MIN), Immediate::I64(i64::MIN)));
    assert!(immediate_gt(Immediate::I16(100), Immediate::I16(-100)));
    assert!(immediate_eq(Immediate::Absent, Immediate::Absent));
    assert!(!immediate_gt(Immediate::Absent, Immediate::Absent));
}

#[test]
fn comparisons_across_variants_are_false() {
    assert!(!immediate_eq(Immediate::U8(5), Immediate::I8(5)));
    assert!(!immediate_gt(Immediate::U8(5), Immediate::I8(4)));
    assert!(!immediate_eq(Immediate::U8(0), Immediate::Absent));
    assert!(!immediate_eq(Immediate::F32(0), Immediate::F64(0)));
}

#[test]
fn float_comparisons_match_host_ieee_semantics() {
    let xs = [
        0.0f32,
        -0.0,
        1.5,
        -1.5,
        f32::NAN,
        f32::INFINITY,
        f32::NEG_INFINITY,
        f32::MIN_POSITIVE,
        -7.25,
        1.0e-40,
        3.4e38,
    ];
    for &a in xs.iter() {
        for &b in xs.iter() {
            let va = Immediate::F32(a.to_bits());
            let vb = Immediate::F32(b.to_bits());
            assert_eq!(immediate_eq(va, vb), a == b, "eq {a} {b}");
            assert_eq!(immediate_gt(va, vb), a > b, "gt {a} {b}");
        }
    }
    let ys = [
        0.0f64,
        -0.0,
        2.5,
        -2.5,
        f64::NAN,
        f64::INFINITY,
        f64::NEG_INFINITY,
        f64::MIN_POSITIVE,
        -123.0625,
        5.0e-324,
    ];
    for &a in ys.iter() {
        for &b in ys.iter() {
            let va = Immediate::F64(a.to_bits());
            let vb = Immediate::F64(b.to_bits());
            assert_eq!(immediate_eq(va, vb), a == b, "eq {a} {b}");
            assert_eq!(immediate_gt(va, vb), a > b, "gt {a} {b}");
        }
    }
}

#[test]
fn binary_operations_give_native_results() {
    assert_eq!(
        apply_binop(BinOp::Add, Immediate::U8(250), Immediate::U8(5)),
        Ok(Immediate::U8(255))
    );
    assert_eq!(
        apply_binop(BinOp::Sub, Immediate::U16(7), Immediate::U16(5)),
        Ok(Immediate::U16(2))
    );
    assert_eq!(
        apply_binop(BinOp::Mul, Immediate::I32(-6), Immediate::I32(7)),
        Ok(Immediate::I32(-42))
    );
    assert_eq!(
        apply_binop(BinOp::Div, Immediate::U64(17), Immediate::U64(5)),
        Ok(Immediate::U64(3))
    );
    // signed division truncates toward zero
    assert_eq!(apply_binop(BinOp::Div, Immediate::I8(-7), Immediate::I8(2)), Ok(Immediate::I8(-3)));
    assert_eq!(apply_binop(BinOp::Div, Immediate::I8(7), Immediate::I8(-2)), Ok(Immediate::I8(-3)));
    assert_eq!(
        apply_binop(BinOp::And, Immediate::U8(0b1100), Immediate::U8(0b1010)),
        Ok(Immediate::U8(0b1000))
    );
    assert_eq!(
        apply_binop(BinOp::Or, Immediate::U8(0b1100), Immediate::U8(0b1010)),
        Ok(Immediate::U8(0b1110))
    );
    assert_eq!(
        apply_binop(BinOp::Xor, Immediate::U8(0b1100), Immediate::U8(0b1010)),
        Ok(Immediate::U8(0b0110))
    );
    assert_eq!(apply_binop(BinOp::Shr, Immediate::I16(-8), Immediate::I16(1)), Ok(Immediate::I16(-4)));
    assert_eq!(apply_binop(BinOp::Shl, Immediate::U8(0xff), Immediate::U8(4)), Ok(Immediate::U8(0xf0)));
}

#[test]
fn binary_operation_faults_are_explicit() {
    assert_eq!(
        apply_binop(BinOp::Add, Immediate::U8(250), Immediate::U8(6)),
        Err(VmError::Overflow)
    );
    assert_eq!(apply_binop(BinOp::Sub, Immediate::U8(1), Immediate::U8(2)), Err(VmError::Overflow));
    assert_eq!(
        apply_binop(BinOp::Mul, Immediate::I8(64), Immediate::I8(2)),
        Err(VmError::Overflow)
    );
    assert_eq!(
        apply_binop(BinOp::Div, Immediate::U8(1), Immediate::U8(0)),
        Err(VmError::DivisionByZero)
    );
    assert_eq!(
        apply_binop(BinOp::Div, Immediate::I8(i8::MIN), Immediate::I8(-1)),
        Err(VmError::Overflow)
    );
    assert_eq!(
        apply_binop(BinOp::Shr, Immediate::U8(1), Immediate::U8(8)),
        Err(VmError::Overflow)
    );
    assert_eq!(
        apply_binop(BinOp::Shl, Immediate::I8(1), Immediate::I8(-1)),
        Err(VmError::Overflow)
    );
    assert_eq!(
        apply_binop(BinOp::Add, Immediate::U8(1), Immediate::I8(1)),
        Err(VmError::TypeMismatch)
    );
    assert_eq!(
        apply_binop(BinOp::Add, Immediate::Absent, Immediate::Absent),
        Err(VmError::UnsupportedType)
    );
    assert_eq!(
        apply_binop(BinOp::And, Immediate::F32(0), Immediate::F32(0)),
        Err(VmError::UnsupportedType)
    );
}

#[test]
fn store_load_pop_round_trip() {
    // VSTORE 3, U8(42); VLOAD 3; VPOP R2; HALT
    let mut vm = VirtualMachine::new(vec![9, 3, 0, 42, 10, 3, 19, 2, 22], 8);
    assert_eq!(vm.cpu(FUEL), RunOutcome::Halted);
    assert_eq!(vm.register(2), Immediate::U8(42));
    assert_eq!(vm.data_at(3), Immediate::U8(42));
    assert_eq!(vm.stack_len(), 0);
}

#[test]
fn store_register_and_load_register() {
    // MOV R0, U8(9); VSTORER 1, R0; VLOADR R5, 1; HALT
    let mut vm = VirtualMachine::new(vec![1, 0, 0, 9, 15, 1, 0, 16, 5, 1, 22], 8);
    assert_eq!(vm.cpu(FUEL), RunOutcome::Halted);
    assert_eq!(vm.register(5), Immediate::U8(9));
    assert_eq!(vm.data_at(1), Immediate::U8(9));
}

#[test]
fn arithmetic_pushes_result_on_stack() {
    // MOV R0, U8(7); MOV R1, U8(5); SUB R0, R1; HALT
    let mut vm = VirtualMachine::new(vec![1, 0, 0, 7, 1, 1, 0, 5, 12, 0, 1, 22], 8);
    assert_eq!(vm.cpu(FUEL), RunOutcome::Halted);
    assert_eq!(vm.stack_len(), 1);
    assert_eq!(vm.stack_at(0), Immediate::U8(2));
}

#[test]
fn division_divides_second_register_by_first() {
    // quirk of the instruction set: DIV R0, R1 pushes R1 / R0
    let mut vm = VirtualMachine::new(vec![1, 0, 0, 2, 1, 1, 0, 10, 14, 0, 1, 22], 8);
    assert_eq!(vm.cpu(FUEL), RunOutcome::Halted);
    assert_eq!(vm.stack_at(0), Immediate::U8(5));
}

#[test]
fn division_fault_aborts() {
    // DIV R0, R1 with R0 (the divisor) holding zero
    let mut vm = VirtualMachine::new(vec![1, 0, 0, 0, 1, 1, 0, 5, 14, 0, 1, 22], 8);
    assert_eq!(vm.cpu(FUEL), RunOutcome::Aborted(VmError::DivisionByZero));
}

#[test]
fn shift_applies_immediate_amount_to_register() {
    // MOV R0, U8(8); SHR R0, U8(1); HALT
    let mut vm = VirtualMachine::new(vec![1, 0, 0, 8, 28, 0, 0, 1, 22], 8);
    assert_eq!(vm.cpu(FUEL), RunOutcome::Halted);
    assert_eq!(vm.stack_at(0), Immediate::U8(4));
}

#[test]
fn cmp_on_mismatched_variants_clears_both_flags() {
    // MOV R0, U8(1); MOV R1, I8(1); CMP R0, R1; HALT
    let mut vm = VirtualMachine::new(vec![1, 0, 0, 1, 1, 1, 1, 1, 6, 0, 1, 22], 8);
    assert_eq!(vm.cpu(FUEL), RunOutcome::Halted);
    assert!(!vm.flag_equal());
    assert!(!vm.flag_greater());
}

#[test]
fn float_compare_sets_greater_flag() {
    let a = 2.0f32.to_bits().to_le_bytes();
    let b = 1.0f32.to_bits().to_le_bytes();
    let code = vec![
        1, 0, 8, a[0], a[1], a[2], a[3], 1, 1, 8, b[0], b[1], b[2], b[3], 6, 0, 1, 22,
    ];
    let mut vm = VirtualMachine::new(code, 0);
    assert_eq!(vm.cpu(FUEL), RunOutcome::Halted);
    assert!(vm.flag_greater());
    assert!(!vm.flag_equal());
}

#[test]
fn float_arithmetic_pauses_and_resumes() {
    let a = 1.5f32;
    let b = 2.25f32;
    let ab = a.to_bits().to_le_bytes();
    let bb = b.to_bits().to_le_bytes();
    // MOV R0, F32(1.5); MOV R1, F32(2.25); ADD R0, R1; HALT
    let code = vec![
        1, 0, 8, ab[0], ab[1], ab[2], ab[3], 1, 1, 8, bb[0], bb[1], bb[2], bb[3], 11, 0, 1, 22,
    ];
    let mut vm = VirtualMachine::new(code, 0);
    let out = vm.cpu(FUEL);
    let req = FloatRequest {
        op: BinOp::Add,
        width: FloatWidth::Single,
        lhs: a.to_bits() as u64,
        rhs: b.to_bits() as u64,
    };
    assert_eq!(out, RunOutcome::NeedsFloat(req));
    assert_eq!(vm.pending_request(), Some(req));
    let sum = (a + b).to_bits() as u64;
    assert_eq!(vm.resume_float(sum, FUEL), RunOutcome::Halted);
    assert_eq!(vm.stack_len(), 1);
    assert_eq!(vm.stack_at(0), Immediate::F32((a + b).to_bits()));
}

#[test]
fn error_programs_abort_with_their_error() {
    let cases: Vec<(Vec<u8>, VmError)> = vec![
        // PRINTR on a register outside the file
        (vec![7, 9], VmError::InvalidRegister),
        // VLOAD from an empty data segment
        (vec![10, 0], VmError::InvalidAddress),
        // JMP through a register holding a signed value
        (vec![1, 0, 1, 3, 3, 0], VmError::InvalidJumpTarget),
        // RET on an empty stack
        (vec![21], VmError::StackUnderflow),
        // MOV whose immediate bytes run out
        (vec![1, 0], VmError::TruncatedCode),
        // ADD overflowing the width
        (vec![1, 0, 0, 250, 1, 1, 0, 6, 11, 0, 1], VmError::Overflow),
    ];
    for (code, err) in cases {
        let mut vm = VirtualMachine::new(code, 0);
        assert_eq!(vm.cpu(FUEL), RunOutcome::Aborted(err));
    }
}

#[test]
fn double_float_arithmetic_pauses_and_resumes() {
    let a = 10.5f64;
    let b = 0.25f64;
    let ab = a.to_bits().to_le_bytes();
    let bb = b.to_bits().to_le_bytes();
    let mut code = vec![1, 0, 9];
    code.extend_from_slice(&ab);
    code.extend_from_slice(&[1, 1, 9]);
    code.extend_from_slice(&bb);
    code.extend_from_slice(&[12, 0, 1, 22]);
    let mut vm = VirtualMachine::new(code, 0);
    let out = vm.cpu(FUEL);
    let req = FloatRequest {
        op: BinOp::Sub,
        width: FloatWidth::Double,
        lhs: a.to_bits(),
        rhs: b.to_bits(),
    };
    assert_eq!(out, RunOutcome::NeedsFloat(req));
    assert_eq!(vm.resume_float((a - b).to_bits(), FUEL), RunOutcome::Halted);
    assert_eq!(vm.stack_at(0), Immediate::F64((a - b).to_bits()));
}

#[test]
fn conditional_jumps_follow_the_flags() {
    // MOV R0, U8(5); MOV R1, U8(5); MOV R2, U8(24); CMP R0, R1;
    // JE R2; HALT; MOV R3, U8(7); HALT
    // JE taken: the jump lands one byte past 24, on the MOV at offset 25
    let code = vec![
        1, 0, 0, 5, 1, 1, 0, 5, 1, 2, 0, 24, 6, 0, 1, 4, 2, 22, 0, 0, 0, 0, 0, 0, 0, 1, 3, 0, 7,
        22,
    ];
    let mut vm = VirtualMachine::new(code, 0);
    assert_eq!(vm.cpu(FUEL), RunOutcome::Halted);
    assert!(vm.flag_equal());
    assert_eq!(vm.register(3), Immediate::U8(7));

    // JNE not taken when equal: falls through to HALT and never reaches
    // the MOV past it
    let code = vec![
        1, 0, 0, 5, 1, 1, 0, 5, 1, 2, 0, 24, 6, 0, 1, 5, 2, 22, 0, 0, 0, 0, 0, 0, 0, 1, 3, 0, 7,
        22,
    ];
    let mut vm = VirtualMachine::new(code, 0);
    assert_eq!(vm.cpu(FUEL), RunOutcome::Halted);
    assert_eq!(vm.register(3), Immediate::U8(0));

    // JL jumps when the greater flag is clear (5 is not greater than 5)
    let code = vec![
        1, 0, 0, 5, 1, 1, 0, 5, 1, 2, 0, 24, 6, 0, 1, 24, 2, 22, 0, 0, 0, 0, 0, 0, 0, 1, 3, 0, 7,
        22,
    ];
    let mut vm = VirtualMachine::new(code, 0);
    assert_eq!(vm.cpu(FUEL), RunOutcome::Halted);
    assert_eq!(vm.register(3), Immediate::U8(7));
}

#[test]
fn push_instructions_grow_the_stack() {
    // VPUSH U16(300); MOV R1, U8(9); VPUSHR R1; MOVR R4, R1; HALT
    let code = vec![17, 2, 44, 1, 1, 1, 0, 9, 18, 1, 2, 4, 1, 22];
    let mut vm = VirtualMachine::new(code, 0);
    assert_eq!(vm.cpu(FUEL), RunOutcome::Halted);
    assert_eq!(vm.stack_len(), 2);
    assert_eq!(vm.stack_at(0), Immediate::U16(300));
    assert_eq!(vm.stack_at(1), Immediate::U8(9));
    assert_eq!(vm.register(4), Immediate::U8(9));
}

#[test]
fn printv_emits_the_data_segment_value() {
    // VSTORE 2, U16(700); PRINTV 2; HALT
    let mut vm = VirtualMachine::new(vec![9, 2, 2, 188, 2, 8, 2, 22], 4);
    assert_eq!(vm.cpu(FUEL), RunOutcome::Halted);
    let mut found = false;
    let mut i = 0;
    while i < vm.trace_len() {
        if vm.trace_line(i).as_str() == "Printing: U16(700)" {
            found = true;
        }
        i += 1;
    }
    assert!(found);
}

#[test]
fn failed_pop_keeps_its_partial_effect() {
    // VPUSH U8(1); VPOP R9: the pop happens before the register index is
    // rejected, and is not rolled back
    let mut vm = VirtualMachine::new(vec![17, 0, 1, 19, 9], 0);
    assert_eq!(vm.cpu(FUEL), RunOutcome::Aborted(VmError::InvalidRegister));
    assert_eq!(vm.stack_len(), 0);
}

#[test]
fn failed_call_keeps_the_pushed_return_offset() {
    // MOV R0, I8(0); CALL R0: the return offset is pushed before the jump
    // target is rejected, and is not rolled back
    let mut vm = VirtualMachine::new(vec![1, 0, 1, 0, 20, 0], 0);
    assert_eq!(vm.cpu(FUEL), RunOutcome::Aborted(VmError::InvalidJumpTarget));
    assert_eq!(vm.stack_len(), 1);
    assert_eq!(vm.stack_at(0), Immediate::U16(6));
}

#[test]
fn unknown_opcode_and_tag_are_tolerated() {
    // opcode 99 is a NOP; tag 77 is the absent value
    let mut vm = VirtualMachine::new(vec![99, 1, 0, 77, 22], 0);
    assert_eq!(vm.cpu(FUEL), RunOutcome::Halted);
    assert_eq!(vm.register(0), Immediate::Absent);
}
