//! The laws of the machine, stated and proved once and for all inputs.
//!
//! Each proof function here is a standalone statement about the spec-level
//! transition functions and the value model: how `CMP` drives the flags, how
//! many bytes each opcode consumes, that immediate decoding inverts the
//! little-endian encoding, that a stored value travels intact through the
//! data segment and the stack, and exactly when a binary operation succeeds
//! with the native result or fails.

use vstd::prelude::*;

use crate::decode::imm_width;
use crate::decode::le16;
use crate::decode::le32;
use crate::decode::le64;
use crate::decode::spec_decode;
use crate::decode::spec_decode_immediate;
use crate::decode::spec_encode_immediate;
use crate::decode::Instruction;
use crate::machine::spec_binop_step;
use crate::machine::spec_execute;
use crate::machine::ExecStatus;
use crate::machine::Model;
use crate::value::imm_eq;
use crate::value::imm_gt;
use crate::value::same_variant;
use crate::value::spec_apply_binop;
use crate::value::spec_binop_u8;
use crate::value::spec_binop_i8;
use crate::value::spec_binop_u16;
use crate::value::spec_binop_i16;
use crate::value::spec_binop_u32;
use crate::value::spec_binop_i32;
use crate::value::spec_binop_u64;
use crate::value::spec_binop_i64;
use crate::value::Address;
use crate::value::BinOp;
use crate::value::Immediate;
use crate::value::Register;
use crate::value::VmError;

verus! {

/// `CMP` on two valid registers always completes, sets `equal` exactly when
/// the two values are equal under `imm_eq` and `greater` exactly when the
/// first exceeds the second under `imm_gt`, and touches nothing else but the
/// trace. On mismatched variants both flags come out false.
pub proof fn lemma_cmp_sets_flags(m: Model, a: Register, b: Register)
    requires
        m.wf(),
        a < 8,
        b < 8,
    ensures
        ({
            let (m2, st) = spec_execute(m, Instruction::CMP(a, b));
            &&& st == ExecStatus::Done
            &&& m2.flag_eq == imm_eq(m.reg[a as int], m.reg[b as int])
            &&& m2.flag_gt == imm_gt(m.reg[a as int], m.reg[b as int])
            &&& m2.reg == m.reg
            &&& m2.stack == m.stack
            &&& m2.data == m.data
            &&& m2.ip == m.ip
        }),
        !same_variant(m.reg[a as int], m.reg[b as int]) ==> !spec_execute(
            m,
            Instruction::CMP(a, b),
        ).0.flag_eq && !spec_execute(m, Instruction::CMP(a, b)).0.flag_gt,
{
}

/// On two same-variant integer values, `imm_eq` and `imm_gt` are the native
/// per-width equality and ordering.
pub proof fn lemma_compare_native(x: Immediate, y: Immediate)
    ensures
        x matches Immediate::U8(p) ==> (y matches Immediate::U8(q) ==> ((imm_eq(x, y) <==> p
            == q) && (imm_gt(x, y) <==> p > q))),
        x matches Immediate::I8(p) ==> (y matches Immediate::I8(q) ==> ((imm_eq(x, y) <==> p
            == q) && (imm_gt(x, y) <==> p > q))),
        x matches Immediate::U16(p) ==> (y matches Immediate::U16(q) ==> ((imm_eq(x, y) <==> p
            == q) && (imm_gt(x, y) <==> p > q))),
        x matches Immediate::I16(p) ==> (y matches Immediate::I16(q) ==> ((imm_eq(x, y) <==> p
            == q) && (imm_gt(x, y) <==> p > q))),
        x matches Immediate::U32(p) ==> (y matches Immediate::U32(q) ==> ((imm_eq(x, y) <==> p
            == q) && (imm_gt(x, y) <==> p > q))),
        x matches Immediate::I32(p) ==> (y matches Immediate::I32(q) ==> ((imm_eq(x, y) <==> p
            == q) && (imm_gt(x, y) <==> p > q))),
        x matches Immediate::U64(p) ==> (y matches Immediate::U64(q) ==> ((imm_eq(x, y) <==> p
            == q) && (imm_gt(x, y) <==> p > q))),
        x matches Immediate::I64(p) ==> (y matches Immediate::I64(q) ==> ((imm_eq(x, y) <==> p
            == q) && (imm_gt(x, y) <==> p > q))),
        !same_variant(x, y) ==> !imm_eq(x, y) && !imm_gt(x, y),
{
}

/// A stored value travels intact: `VSTORE addr, v` then `VLOAD addr` then
/// `VPOP r` all complete and leave register `r` holding exactly `v`, for any
/// in-range address and any value.
pub proof fn lemma_store_load_pop(m: Model, addr: Address, r: Register, v: Immediate)
    requires
        m.wf(),
        addr < m.data.len(),
        r < 8,
    ensures
        ({
            let (m1, s1) = spec_execute(m, Instruction::VSTORE(addr, v));
            let (m2, s2) = spec_execute(m1, Instruction::VLOAD(addr));
            let (m3, s3) = spec_execute(m2, Instruction::VPOP(r));
            &&& s1 == ExecStatus::Done
            &&& s2 == ExecStatus::Done
            &&& s3 == ExecStatus::Done
            &&& m3.reg[r as int] == v
            &&& m3.stack == m.stack
        }),
{
    let (m1, s1) = spec_execute(m, Instruction::VSTORE(addr, v));
    let (m2, s2) = spec_execute(m1, Instruction::VLOAD(addr));
    let (m3, s3) = spec_execute(m2, Instruction::VPOP(r));
    assert(m2.stack == m1.stack.push(v));
    assert(m2.stack.last() == v);
    assert(m3.stack =~= m.stack);
}

/// A binary operation on operands of two different variants always fails
/// with a type mismatch, and the corresponding instruction aborts without
/// touching registers, stack, or data.
pub proof fn lemma_binop_mismatch(op: BinOp, a: Immediate, b: Immediate)
    requires
        !same_variant(a, b),
    ensures
        spec_apply_binop(op, a, b) == Err::<Immediate, VmError>(VmError::TypeMismatch),
{
}

/// The machine-level half of the mismatch law: an arithmetic, bitwise, or
/// shift instruction on two valid registers holding different variants fails
/// with `TypeMismatch` and leaves everything but the trace unchanged.
pub proof fn lemma_binop_step_mismatch(m: Model, op: BinOp, a: Register, b: Register)
    requires
        m.wf(),
        a < 8,
        b < 8,
        !same_variant(m.reg[a as int], m.reg[b as int]),
    ensures
        ({
            let (m2, st) = spec_binop_step(m, op, a, b);
            &&& st == ExecStatus::Fail(VmError::TypeMismatch)
            &&& m2 == m
        }),
{
    lemma_binop_mismatch(op, m.reg[a as int], m.reg[b as int]);
}

/// The machine-level half of the success law: when the value model yields a
/// result, the instruction completes and pushes exactly that result; when it
/// yields an error, the instruction fails with exactly that error. (Both
/// operands floating is the one case decided elsewhere: the run pauses for
/// the embedding caller.)
pub proof fn lemma_binop_step_pushes(m: Model, op: BinOp, a: Register, b: Register)
    requires
        m.wf(),
        a < 8,
        b < 8,
        !(m.reg[a as int] matches Immediate::F32(_) && m.reg[b as int] matches Immediate::F32(_)),
        !(m.reg[a as int] matches Immediate::F64(_) && m.reg[b as int] matches Immediate::F64(_)),
    ensures
        ({
            let (m2, st) = spec_binop_step(m, op, a, b);
            match spec_apply_binop(op, m.reg[a as int], m.reg[b as int]) {
                Ok(res) => st == ExecStatus::Done && m2.stack == m.stack.push(res) && m2.reg
                    == m.reg && m2.data == m.data,
                Err(e) => st == ExecStatus::Fail(e) && m2 == m,
            }
        }),
{
}

/// Two same-variant `u8` operands: every operation succeeds with the
/// native fixed-width result exactly when that result exists, and fails with
/// the explicit fault otherwise.
pub proof fn lemma_binop_native_u8(op: BinOp, x: u8, y: u8)
    ensures
        spec_apply_binop(op, Immediate::U8(x), Immediate::U8(y)) == spec_binop_u8(op, x, y),
        op == BinOp::Add && x + y <= u8::MAX ==> spec_binop_u8(op, x, y) == Ok::<Immediate, VmError>(Immediate::U8((x + y) as u8)),
        op == BinOp::Add && x + y > u8::MAX ==> spec_binop_u8(op, x, y) == Err::<Immediate, VmError>(VmError::Overflow),
        op == BinOp::Sub && x >= y ==> spec_binop_u8(op, x, y) == Ok::<Immediate, VmError>(Immediate::U8((x - y) as u8)),
        op == BinOp::Sub && x < y ==> spec_binop_u8(op, x, y) == Err::<Immediate, VmError>(VmError::Overflow),
        op == BinOp::Mul && x * y <= u8::MAX ==> spec_binop_u8(op, x, y) == Ok::<Immediate, VmError>(Immediate::U8((x * y) as u8)),
        op == BinOp::Mul && x * y > u8::MAX ==> spec_binop_u8(op, x, y) == Err::<Immediate, VmError>(VmError::Overflow),
        op == BinOp::Div && y != 0 ==> spec_binop_u8(op, x, y) == Ok::<Immediate, VmError>(Immediate::U8(x / y)),
        op == BinOp::Div && y == 0 ==> spec_binop_u8(op, x, y) == Err::<Immediate, VmError>(VmError::DivisionByZero),
        op == BinOp::And ==> spec_binop_u8(op, x, y) == Ok::<Immediate, VmError>(Immediate::U8(x & y)),
        op == BinOp::Or ==> spec_binop_u8(op, x, y) == Ok::<Immediate, VmError>(Immediate::U8(x | y)),
        op == BinOp::Xor ==> spec_binop_u8(op, x, y) == Ok::<Immediate, VmError>(Immediate::U8(x ^ y)),
        op == BinOp::Shr && y < 8 ==> spec_binop_u8(op, x, y) == Ok::<Immediate, VmError>(Immediate::U8(x >> y)),
        op == BinOp::Shl && y < 8 ==> spec_binop_u8(op, x, y) == Ok::<Immediate, VmError>(Immediate::U8(x << y)),
        (op == BinOp::Shr || op == BinOp::Shl) && y >= 8 ==> spec_binop_u8(op, x, y) == Err::<Immediate, VmError>(VmError::Overflow),
{
}

/// Two same-variant `i8` operands: every operation succeeds with the
/// native fixed-width result exactly when that result exists, and fails with
/// the explicit fault otherwise.
#[verifier::rlimit(50)]
pub proof fn lemma_binop_native_i8(op: BinOp, x: i8, y: i8)
    ensures
        spec_apply_binop(op, Immediate::I8(x), Immediate::I8(y)) == spec_binop_i8(op, x, y),
        op == BinOp::Add && i8::MIN <= x + y <= i8::MAX ==> spec_binop_i8(op, x, y) == Ok::<Immediate, VmError>(Immediate::I8((x + y) as i8)),
        op == BinOp::Add && !(i8::MIN <= x + y <= i8::MAX) ==> spec_binop_i8(op, x, y) == Err::<Immediate, VmError>(VmError::Overflow),
        op == BinOp::Sub && i8::MIN <= x - y <= i8::MAX ==> spec_binop_i8(op, x, y) == Ok::<Immediate, VmError>(Immediate::I8((x - y) as i8)),
        op == BinOp::Sub && !(i8::MIN <= x - y <= i8::MAX) ==> spec_binop_i8(op, x, y) == Err::<Immediate, VmError>(VmError::Overflow),
        op == BinOp::Mul && i8::MIN <= x * y <= i8::MAX ==> spec_binop_i8(op, x, y) == Ok::<Immediate, VmError>(Immediate::I8((x * y) as i8)),
        op == BinOp::Mul && !(i8::MIN <= x * y <= i8::MAX) ==> spec_binop_i8(op, x, y) == Err::<Immediate, VmError>(VmError::Overflow),
        op == BinOp::Div && y == 0 ==> spec_binop_i8(op, x, y) == Err::<Immediate, VmError>(VmError::DivisionByZero),
        op == BinOp::Div && x == i8::MIN && y == -1 ==> spec_binop_i8(op, x, y) == Err::<Immediate, VmError>(VmError::Overflow),
        op == BinOp::Div && y != 0 && !(x == i8::MIN && y == -1) ==> spec_binop_i8(op, x, y) is Ok,
        op == BinOp::Div && y > 0 && x >= 0 ==> spec_binop_i8(op, x, y) == Ok::<Immediate, VmError>(Immediate::I8((x as int / y as int) as i8)),
        op == BinOp::And ==> spec_binop_i8(op, x, y) == Ok::<Immediate, VmError>(Immediate::I8(x & y)),
        op == BinOp::Or ==> spec_binop_i8(op, x, y) == Ok::<Immediate, VmError>(Immediate::I8(x | y)),
        op == BinOp::Xor ==> spec_binop_i8(op, x, y) == Ok::<Immediate, VmError>(Immediate::I8(x ^ y)),
        op == BinOp::Shr && 0 <= y < 8 ==> spec_binop_i8(op, x, y) == Ok::<Immediate, VmError>(Immediate::I8(x >> y)),
        op == BinOp::Shl && 0 <= y < 8 ==> spec_binop_i8(op, x, y) == Ok::<Immediate, VmError>(Immediate::I8(x << y)),
        (op == BinOp::Shr || op == BinOp::Shl) && !(0 <= y < 8) ==> spec_binop_i8(op, x, y) == Err::<Immediate, VmError>(VmError::Overflow),
{
    if op == BinOp::Div && y != 0 && !(x == i8::MIN && y == -1) {
        let m1 = if x >= 0 { x as int } else { -(x as int) };
        let m2 = if y >= 0 { y as int } else { -(y as int) };
        vstd::arithmetic::div_mod::lemma_div_is_ordered_by_denominator(m1, 1, m2);
        if m2 >= 2 {
            vstd::arithmetic::div_mod::lemma_div_is_ordered_by_denominator(m1, 2, m2);
            vstd::arithmetic::div_mod::lemma_div_is_ordered(m1, 128, 2);
        }
    }
}

/// Two same-variant `u16` operands: every operation succeeds with the
/// native fixed-width result exactly when that result exists, and fails with
/// the explicit fault otherwise.
pub proof fn lemma_binop_native_u16(op: BinOp, x: u16, y: u16)
    ensures
        spec_apply_binop(op, Immediate::U16(x), Immediate::U16(y)) == spec_binop_u16(op, x, y),
        op == BinOp::Add && x + y <= u16::MAX ==> spec_binop_u16(op, x, y) == Ok::<Immediate, VmError>(Immediate::U16((x + y) as u16)),
        op == BinOp::Add && x + y > u16::MAX ==> spec_binop_u16(op, x, y) == Err::<Immediate, VmError>(VmError::Overflow),
        op == BinOp::Sub && x >= y ==> spec_binop_u16(op, x, y) == Ok::<Immediate, VmError>(Immediate::U16((x - y) as u16)),
        op == BinOp::Sub && x < y ==> spec_binop_u16(op, x, y) == Err::<Immediate, VmError>(VmError::Overflow),
        op == BinOp::Mul && x * y <= u16::MAX ==> spec_binop_u16(op, x, y) == Ok::<Immediate, VmError>(Immediate::U16((x * y) as u16)),
        op == BinOp::Mul && x * y > u16::MAX ==> spec_binop_u16(op, x, y) == Err::<Immediate, VmError>(VmError::Overflow),
        op == BinOp::Div && y != 0 ==> spec_binop_u16(op, x, y) == Ok::<Immediate, VmError>(Immediate::U16(x / y)),
        op == BinOp::Div && y == 0 ==> spec_binop_u16(op, x, y) == Err::<Immediate, VmError>(VmError::DivisionByZero),
        op == BinOp::And ==> spec_binop_u16(op, x, y) == Ok::<Immediate, VmError>(Immediate::U16(x & y)),
        op == BinOp::Or ==> spec_binop_u16(op, x, y) == Ok::<Immediate, VmError>(Immediate::U16(x | y)),
        op == BinOp::Xor ==> spec_binop_u16(op, x, y) == Ok::<Immediate, VmError>(Immediate::U16(x ^ y)),
        op == BinOp::Shr && y < 16 ==> spec_binop_u16(op, x, y) == Ok::<Immediate, VmError>(Immediate::U16(x >> y)),
        op == BinOp::Shl && y < 16 ==> spec_binop_u16(op, x, y) == Ok::<Immediate, VmError>(Immediate::U16(x << y)),
        (op == BinOp::Shr || op == BinOp::Shl) && y >= 16 ==> spec_binop_u16(op, x, y) == Err::<Immediate, VmError>(VmError::Overflow),
{
}

/// Two same-variant `i16` operands: every operation succeeds with the
/// native fixed-width result exactly when that result exists, and fails with
/// the explicit fault otherwise.
#[verifier::rlimit(50)]
pub proof fn lemma_binop_native_i16(op: BinOp, x: i16, y: i16)
    ensures
        spec_apply_binop(op, Immediate::I16(x), Immediate::I16(y)) == spec_binop_i16(op, x, y),
        op == BinOp::Add && i16::MIN <= x + y <= i16::MAX ==> spec_binop_i16(op, x, y) == Ok::<Immediate, VmError>(Immediate::I16((x + y) as i16)),
        op == BinOp::Add && !(i16::MIN <= x + y <= i16::MAX) ==> spec_binop_i16(op, x, y) == Err::<Immediate, VmError>(VmError::Overflow),
        op == BinOp::Sub && i16::MIN <= x - y <= i16::MAX ==> spec_binop_i16(op, x, y) == Ok::<Immediate, VmError>(Immediate::I16((x - y) as i16)),
        op == BinOp::Sub && !(i16::MIN <= x - y <= i16::MAX) ==> spec_binop_i16(op, x, y) == Err::<Immediate, VmError>(VmError::Overflow),
        op == BinOp::Mul && i16::MIN <= x * y <= i16::MAX ==> spec_binop_i16(op, x, y) == Ok::<Immediate, VmError>(Immediate::I16((x * y) as i16)),
        op == BinOp::Mul && !(i16::MIN <= x * y <= i16::MAX) ==> spec_binop_i16(op, x, y) == Err::<Immediate, VmError>(VmError::Overflow),
        op == BinOp::Div && y == 0 ==> spec_binop_i16(op, x, y) == Err::<Immediate, VmError>(VmError::DivisionByZero),
        op == BinOp::Div && x == i16::MIN && y == -1 ==> spec_binop_i16(op, x, y) == Err::<Immediate, VmError>(VmError::Overflow),
        op == BinOp::Div && y != 0 && !(x == i16::MIN && y == -1) ==> spec_binop_i16(op, x, y) is Ok,
        op == BinOp::Div && y > 0 && x >= 0 ==> spec_binop_i16(op, x, y) == Ok::<Immediate, VmError>(Immediate::I16((x as int / y as int) as i16)),
        op == BinOp::And ==> spec_binop_i16(op, x, y) == Ok::<Immediate, VmError>(Immediate::I16(x & y)),
        op == BinOp::Or ==> spec_binop_i16(op, x, y) == Ok::<Immediate, VmError>(Immediate::I16(x | y)),
        op == BinOp::Xor ==> spec_binop_i16(op, x, y) == Ok::<Immediate, VmError>(Immediate::I16(x ^ y)),
        op == BinOp::Shr && 0 <= y < 16 ==> spec_binop_i16(op, x, y) == Ok::<Immediate, VmError>(Immediate::I16(x >> y)),
        op == BinOp::Shl && 0 <= y < 16 ==> spec_binop_i16(op, x, y) == Ok::<Immediate, VmError>(Immediate::I16(x << y)),
        (op == BinOp::Shr || op == BinOp::Shl) && !(0 <= y < 16) ==> spec_binop_i16(op, x, y) == Err::<Immediate, VmError>(VmError::Overflow),
{
    if op == BinOp::Div && y != 0 && !(x == i16::MIN && y == -1) {
        let m1 = if x >= 0 { x as int } else { -(x as int) };
        let m2 = if y >= 0 { y as int } else { -(y as int) };
        vstd::arithmetic::div_mod::lemma_div_is_ordered_by_denominator(m1, 1, m2);
        if m2 >= 2 {
            vstd::arithmetic::div_mod::lemma_div_is_ordered_by_denominator(m1, 2, m2);
            vstd::arithmetic::div_mod::lemma_div_is_ordered(m1, 32768, 2);
        }
    }
}

/// Two same-variant `u32` operands: every operation succeeds with the
/// native fixed-width result exactly when that result exists, and fails with
/// the explicit fault otherwise.
pub proof fn lemma_binop_native_u32(op: BinOp, x: u32, y: u32)
    ensures
        spec_apply_binop(op, Immediate::U32(x), Immediate::U32(y)) == spec_binop_u32(op, x, y),
        op == BinOp::Add && x + y <= u32::MAX ==> spec_binop_u32(op, x, y) == Ok::<Immediate, VmError>(Immediate::U32((x + y) as u32)),
        op == BinOp::Add && x + y > u32::MAX ==> spec_binop_u32(op, x, y) == Err::<Immediate, VmError>(VmError::Overflow),
        op == BinOp::Sub && x >= y ==> spec_binop_u32(op, x, y) == Ok::<Immediate, VmError>(Immediate::U32((x - y) as u32)),
        op == BinOp::Sub && x < y ==> spec_binop_u32(op, x, y) == Err::<Immediate, VmError>(VmError::Overflow),
        op == BinOp::Mul && x * y <= u32::MAX ==> spec_binop_u32(op, x, y) == Ok::<Immediate, VmError>(Immediate::U32((x * y) as u32)),
        op == BinOp::Mul && x * y > u32::MAX ==> spec_binop_u32(op, x, y) == Err::<Immediate, VmError>(VmError::Overflow),
        op == BinOp::Div && y != 0 ==> spec_binop_u32(op, x, y) == Ok::<Immediate, VmError>(Immediate::U32(x / y)),
        op == BinOp::Div && y == 0 ==> spec_binop_u32(op, x, y) == Err::<Immediate, VmError>(VmError::DivisionByZero),
        op == BinOp::And ==> spec_binop_u32(op, x, y) == Ok::<Immediate, VmError>(Immediate::U32(x & y)),
        op == BinOp::Or ==> spec_binop_u32(op, x, y) == Ok::<Immediate, VmError>(Immediate::U32(x | y)),
        op == BinOp::Xor ==> spec_binop_u32(op, x, y) == Ok::<Immediate, VmError>(Immediate::U32(x ^ y)),
        op == BinOp::Shr && y < 32 ==> spec_binop_u32(op, x, y) == Ok::<Immediate, VmError>(Immediate::U32(x >> y)),
        op == BinOp::Shl && y < 32 ==> spec_binop_u32(op, x, y) == Ok::<Immediate, VmError>(Immediate::U32(x << y)),
        (op == BinOp::Shr || op == BinOp::Shl) && y >= 32 ==> spec_binop_u32(op, x, y) == Err::<Immediate, VmError>(VmError::Overflow),
{
}

/// Two same-variant `i32` operands: every operation succeeds with the
/// native fixed-width result exactly when that result exists, and fails with
/// the explicit fault otherwise.
#[verifier::rlimit(50)]
pub proof fn lemma_binop_native_i32(op: BinOp, x: i32, y: i32)
    ensures
        spec_apply_binop(op, Immediate::I32(x), Immediate::I32(y)) == spec_binop_i32(op, x, y),
        op == BinOp::Add && i32::MIN <= x + y <= i32::MAX ==> spec_binop_i32(op, x, y) == Ok::<Immediate, VmError>(Immediate::I32((x + y) as i32)),
        op == BinOp::Add && !(i32::MIN <= x + y <= i32::MAX) ==> spec_binop_i32(op, x, y) == Err::<Immediate, VmError>(VmError::Overflow),
        op == BinOp::Sub && i32::MIN <= x - y <= i32::MAX ==> spec_binop_i32(op, x, y) == Ok::<Immediate, VmError>(Immediate::I32((x - y) as i32)),
        op == BinOp::Sub && !(i32::MIN <= x - y <= i32::MAX) ==> spec_binop_i32(op, x, y) == Err::<Immediate, VmError>(VmError::Overflow),
        op == BinOp::Mul && i32::MIN <= x * y <= i32::MAX ==> spec_binop_i32(op, x, y) == Ok::<Immediate, VmError>(Immediate::I32((x * y) as i32)),
        op == BinOp::Mul && !(i32::MIN <= x * y <= i32::MAX) ==> spec_binop_i32(op, x, y) == Err::<Immediate, VmError>(VmError::Overflow),
        op == BinOp::Div && y == 0 ==> spec_binop_i32(op, x, y) == Err::<Immediate, VmError>(VmError::DivisionByZero),
        op == BinOp::Div && x == i32::MIN && y == -1 ==> spec_binop_i32(op, x, y) == Err::<Immediate, VmError>(VmError::Overflow),
        op == BinOp::Div && y != 0 && !(x == i32::MIN && y == -1) ==> spec_binop_i32(op, x, y) is Ok,
        op == BinOp::Div && y > 0 && x >= 0 ==> spec_binop_i32(op, x, y) == Ok::<Immediate, VmError>(Immediate::I32((x as int / y as int) as i32)),
        op == BinOp::And ==> spec_binop_i32(op, x, y) == Ok::<Immediate, VmError>(Immediate::I32(x & y)),
        op == BinOp::Or ==> spec_binop_i32(op, x, y) == Ok::<Immediate, VmError>(Immediate::I32(x | y)),
        op == BinOp::Xor ==> spec_binop_i32(op, x, y) == Ok::<Immediate, VmError>(Immediate::I32(x ^ y)),
        op == BinOp::Shr && 0 <= y < 32 ==> spec_binop_i32(op, x, y) == Ok::<Immediate, VmError>(Immediate::I32(x >> y)),
        op == BinOp::Shl && 0 <= y < 32 ==> spec_binop_i32(op, x, y) == Ok::<Immediate, VmError>(Immediate::I32(x << y)),
        (op == BinOp::Shr || op == BinOp::Shl) && !(0 <= y < 32) ==> spec_binop_i32(op, x, y) == Err::<Immediate, VmError>(VmError::Overflow),
{
    if op == BinOp::Div && y != 0 && !(x == i32::MIN && y == -1) {
        let m1 = if x >= 0 { x as int } else { -(x as int) };
        let m2 = if y >= 0 { y as int } else { -(y as int) };
        vstd::arithmetic::div_mod::lemma_div_is_ordered_by_denominator(m1, 1, m2);
        if m2 >= 2 {
            vstd::arithmetic::div_mod::lemma_div_is_ordered_by_denominator(m1, 2, m2);
            vstd::arithmetic::div_mod::lemma_div_is_ordered(m1, 2147483648, 2);
        }
    }
}

/// Two same-variant `u64` operands: every operation succeeds with the
/// native fixed-width result exactly when that result exists, and fails with
/// the explicit fault otherwise.
pub proof fn lemma_binop_native_u64(op: BinOp, x: u64, y: u64)
    ensures
        spec_apply_binop(op, Immediate::U64(x), Immediate::U64(y)) == spec_binop_u64(op, x, y),
        op == BinOp::Add && x + y <= u64::MAX ==> spec_binop_u64(op, x, y) == Ok::<Immediate, VmError>(Immediate::U64((x + y) as u64)),
        op == BinOp::Add && x + y > u64::MAX ==> spec_binop_u64(op, x, y) == Err::<Immediate, VmError>(VmError::Overflow),
        op == BinOp::Sub && x >= y ==> spec_binop_u64(op, x, y) == Ok::<Immediate, VmError>(Immediate::U64((x - y) as u64)),
        op == BinOp::Sub && x < y ==> spec_binop_u64(op, x, y) == Err::<Immediate, VmError>(VmError::Overflow),
        op == BinOp::Mul && x * y <= u64::MAX ==> spec_binop_u64(op, x, y) == Ok::<Immediate, VmError>(Immediate::U64((x * y) as u64)),
        op == BinOp::Mul && x * y > u64::MAX ==> spec_binop_u64(op, x, y) == Err::<Immediate, VmError>(VmError::Overflow),
        op == BinOp::Div && y != 0 ==> spec_binop_u64(op, x, y) == Ok::<Immediate, VmError>(Immediate::U64(x / y)),
        op == BinOp::Div && y == 0 ==> spec_binop_u64(op, x, y) == Err::<Immediate, VmError>(VmError::DivisionByZero),
        op == BinOp::And ==> spec_binop_u64(op, x, y) == Ok::<Immediate, VmError>(Immediate::U64(x & y)),
        op == BinOp::Or ==> spec_binop_u64(op, x, y) == Ok::<Immediate, VmError>(Immediate::U64(x | y)),
        op == BinOp::Xor ==> spec_binop_u64(op, x, y) == Ok::<Immediate, VmError>(Immediate::U64(x ^ y)),
        op == BinOp::Shr && y < 64 ==> spec_binop_u64(op, x, y) == Ok::<Immediate, VmError>(Immediate::U64(x >> y)),
        op == BinOp::Shl && y < 64 ==> spec_binop_u64(op, x, y) == Ok::<Immediate, VmError>(Immediate::U64(x << y)),
        (op == BinOp::Shr || op == BinOp::Shl) && y >= 64 ==> spec_binop_u64(op, x, y) == Err::<Immediate, VmError>(VmError::Overflow),
{
}

/// Two same-variant `i64` operands: every operation succeeds with the
/// native fixed-width result exactly when that result exists, and fails with
/// the explicit fault otherwise.
#[verifier::rlimit(50)]
pub proof fn lemma_binop_native_i64(op: BinOp, x: i64, y: i64)
    ensures
        spec_apply_binop(op, Immediate::I64(x), Immediate::I64(y)) == spec_binop_i64(op, x, y),
        op == BinOp::Add && i64::MIN <= x + y <= i64::MAX ==> spec_binop_i64(op, x, y) == Ok::<Immediate, VmError>(Immediate::I64((x + y) as i64)),
        op == BinOp::Add && !(i64::MIN <= x + y <= i64::MAX) ==> spec_binop_i64(op, x, y) == Err::<Immediate, VmError>(VmError::Overflow),
        op == BinOp::Sub && i64::MIN <= x - y <= i64::MAX ==> spec_binop_i64(op, x, y) == Ok::<Immediate, VmError>(Immediate::I64((x - y) as i64)),
        op == BinOp::Sub && !(i64::MIN <= x - y <= i64::MAX) ==> spec_binop_i64(op, x, y) == Err::<Immediate, VmError>(VmError::Overflow),
        op == BinOp::Mul && i64::MIN <= x * y <= i64::MAX ==> spec_binop_i64(op, x, y) == Ok::<Immediate, VmError>(Immediate::I64((x * y) as i64)),
        op == BinOp::Mul && !(i64::MIN <= x * y <= i64::MAX) ==> spec_binop_i64(op, x, y) == Err::<Immediate, VmError>(VmError::Overflow),
        op == BinOp::Div && y == 0 ==> spec_binop_i64(op, x, y) == Err::<Immediate, VmError>(VmError::DivisionByZero),
        op == BinOp::Div && x == i64::MIN && y == -1 ==> spec_binop_i64(op, x, y) == Err::<Immediate, VmError>(VmError::Overflow),
        op == BinOp::Div && y != 0 && !(x == i64::MIN && y == -1) ==> spec_binop_i64(op, x, y) is Ok,
        op == BinOp::Div && y > 0 && x >= 0 ==> spec_binop_i64(op, x, y) == Ok::<Immediate, VmError>(Immediate::I64((x as int / y as int) as i64)),
        op == BinOp::And ==> spec_binop_i64(op, x, y) == Ok::<Immediate, VmError>(Immediate::I64(x & y)),
        op == BinOp::Or ==> spec_binop_i64(op, x, y) == Ok::<Immediate, VmError>(Immediate::I64(x | y)),
        op == BinOp::Xor ==> spec_binop_i64(op, x, y) == Ok::<Immediate, VmError>(Immediate::I64(x ^ y)),
        op == BinOp::Shr && 0 <= y < 64 ==> spec_binop_i64(op, x, y) == Ok::<Immediate, VmError>(Immediate::I64(x >> y)),
        op == BinOp::Shl && 0 <= y < 64 ==> spec_binop_i64(op, x, y) == Ok::<Immediate, VmError>(Immediate::I64(x << y)),
        (op == BinOp::Shr || op == BinOp::Shl) && !(0 <= y < 64) ==> spec_binop_i64(op, x, y) == Err::<Immediate, VmError>(VmError::Overflow),
{
    if op == BinOp::Div && y != 0 && !(x == i64::MIN && y == -1) {
        let m1 = if x >= 0 { x as int } else { -(x as int) };
        let m2 = if y >= 0 { y as int } else { -(y as int) };
        vstd::arithmetic::div_mod::lemma_div_is_ordered_by_denominator(m1, 1, m2);
        if m2 >= 2 {
            vstd::arithmetic::div_mod::lemma_div_is_ordered_by_denominator(m1, 2, m2);
            vstd::arithmetic::div_mod::lemma_div_is_ordered(m1, 9223372036854775808, 2);
        }
    }
}

/// How many bytes each opcode consumes (the documented operand counts):
/// zero-operand opcodes and any unknown opcode take one byte, one-operand
/// opcodes two, two-operand opcodes three, and the immediate-carrying
/// opcodes take their fixed bytes plus exactly what the immediate takes.
/// When the operand bytes run out, decoding yields no instruction.
pub proof fn lemma_decode_operand_counts(code: Seq<u8>, pos: int)
    requires
        0 <= pos < code.len(),
    ensures
        code[pos] > 29 ==> spec_decode(code, pos) == Some((Instruction::NOP(), pos + 1)),
        code[pos] == 0 ==> spec_decode(code, pos) == Some((Instruction::NOP(), pos + 1)),
        code[pos] == 21 ==> spec_decode(code, pos) == Some((Instruction::RET(), pos + 1)),
        code[pos] == 22 ==> spec_decode(code, pos) == Some((Instruction::HALT(), pos + 1)),
        is_single_operand(code[pos]) ==> spec_decode(code, pos) == (if pos + 2 <= code.len() {
            Some((spec_decode(code, pos)->Some_0.0, pos + 2))
        } else {
            None
        }),
        is_double_operand(code[pos]) ==> spec_decode(code, pos) == (if pos + 3 <= code.len() {
            Some((spec_decode(code, pos)->Some_0.0, pos + 3))
        } else {
            None
        }),
        is_register_immediate(code[pos]) && pos + 1 < code.len() ==> spec_decode(code, pos) == (
        match spec_decode_immediate(code, pos + 2) {
            Some(p) => Some((spec_decode(code, pos)->Some_0.0, p.1)),
            None => None,
        }),
        code[pos] == 17 ==> spec_decode(code, pos) == (match spec_decode_immediate(
            code,
            pos + 1,
        ) {
            Some(p) => Some((Instruction::VPUSH(p.0), p.1)),
            None => None,
        }),
{
}

/// The opcodes whose single operand is one register or address byte.
pub open spec fn is_single_operand(opcode: u8) -> bool {
    opcode == 3 || opcode == 4 || opcode == 5 || opcode == 7 || opcode == 8 || opcode == 10
        || opcode == 18 || opcode == 19 || opcode == 20 || opcode == 23 || opcode == 24
}

/// The opcodes with two register or address bytes.
pub open spec fn is_double_operand(opcode: u8) -> bool {
    opcode == 2 || opcode == 6 || opcode == 11 || opcode == 12 || opcode == 13 || opcode == 14
        || opcode == 15 || opcode == 16 || opcode == 25 || opcode == 26 || opcode == 27
}

/// The opcodes with one register or address byte and then an immediate.
pub open spec fn is_register_immediate(opcode: u8) -> bool {
    opcode == 1 || opcode == 9 || opcode == 28 || opcode == 29
}

/// How many bytes an immediate consumes: one for its type tag plus the
/// width of its value, and just the tag byte when the tag is unknown.
pub proof fn lemma_immediate_operand_counts(code: Seq<u8>, pos: int)
    requires
        0 <= pos < code.len(),
    ensures
        code[pos] > 9 ==> spec_decode_immediate(code, pos) == Some((Immediate::Absent, pos + 1)),
        code[pos] <= 9 && pos + 1 + imm_width(code[pos]) <= code.len() ==> (
        spec_decode_immediate(code, pos) matches Some(p) && p.1 == pos + 1 + imm_width(
            code[pos],
        )),
        code[pos] <= 9 && pos + 1 + imm_width(code[pos]) > code.len() ==> spec_decode_immediate(
            code,
            pos,
        ) is None,
{
}

/// Decoding inverts encoding: wherever the byte encoding of a value `v`
/// (its type tag and the little-endian bytes of its value) sits in the code,
/// decoding an immediate there reproduces exactly `v` and consumes exactly
/// those bytes.
#[verifier::rlimit(100)]
pub proof fn lemma_immediate_round_trip(code: Seq<u8>, pos: int, v: Immediate)
    requires
        v != Immediate::Absent,
        0 <= pos,
        pos + spec_encode_immediate(v).len() <= code.len(),
        code.subrange(pos, pos + spec_encode_immediate(v).len() as int) == spec_encode_immediate(
            v,
        ),
    ensures
        spec_decode_immediate(code, pos) == Some(
            (v, pos + spec_encode_immediate(v).len() as int),
        ),
{
    let enc = spec_encode_immediate(v);
    let sub = code.subrange(pos, pos + enc.len() as int);
    assert forall|k: int| 0 <= k < enc.len() implies code[pos + k] == enc[k] by {
        assert(sub[k] == enc[k]);
    }
    match v {
        Immediate::U16(x) => {
            assert(enc =~= seq![2u8, (x % 0x100) as u8, (x / 0x100) as u8]);
            assert(code[pos + 1] == enc[1]);
            assert(code[pos + 2] == enc[2]);
            lemma_le16_of_value(code, pos, x);
        },
        Immediate::I16(xs) => {
            let x = xs as u16;
            assert(enc =~= seq![3u8, (x % 0x100) as u8, (x / 0x100) as u8]);
            assert(code[pos + 1] == enc[1]);
            assert(code[pos + 2] == enc[2]);
            lemma_le16_of_value(code, pos, x);
            assert((xs as u16) as i16 == xs) by (bit_vector);
        },
        Immediate::U32(x) => {
            assert(enc =~= seq![4u8, (x % 0x100) as u8, ((x / 0x100) % 0x100) as u8, ((x / 0x1_0000) % 0x100) as u8, ((x / 0x100_0000) % 0x100) as u8]);
            assert(code[pos + 1] == enc[1]);
            assert(code[pos + 2] == enc[2]);
            assert(code[pos + 3] == enc[3]);
            assert(code[pos + 4] == enc[4]);
            lemma_le32_of_value(code, pos, x);
        },
        Immediate::I32(xs) => {
            let x = xs as u32;
            assert(enc =~= seq![5u8, (x % 0x100) as u8, ((x / 0x100) % 0x100) as u8, ((x / 0x1_0000) % 0x100) as u8, ((x / 0x100_0000) % 0x100) as u8]);
            assert(code[pos + 1] == enc[1]);
            assert(code[pos + 2] == enc[2]);
            assert(code[pos + 3] == enc[3]);
            assert(code[pos + 4] == enc[4]);
            lemma_le32_of_value(code, pos, x);
            assert((xs as u32) as i32 == xs) by (bit_vector);
        },
        Immediate::F32(x) => {
            assert(enc =~= seq![8u8, (x % 0x100) as u8, ((x / 0x100) % 0x100) as u8, ((x / 0x1_0000) % 0x100) as u8, ((x / 0x100_0000) % 0x100) as u8]);
            assert(code[pos + 1] == enc[1]);
            assert(code[pos + 2] == enc[2]);
            assert(code[pos + 3] == enc[3]);
            assert(code[pos + 4] == enc[4]);
            lemma_le32_of_value(code, pos, x);
        },
        Immediate::U64(x) => {
            assert(enc =~= seq![6u8, (x % 0x100) as u8, ((x / 0x100) % 0x100) as u8, ((x / 0x1_0000) % 0x100) as u8, ((x / 0x100_0000) % 0x100) as u8, ((x / 0x1_0000_0000) % 0x100) as u8, ((x / 0x100_0000_0000) % 0x100) as u8, ((x / 0x1_0000_0000_0000) % 0x100) as u8, ((x / 0x100_0000_0000_0000) % 0x100) as u8]);
            assert(code[pos + 1] == enc[1]);
            assert(code[pos + 2] == enc[2]);
            assert(code[pos + 3] == enc[3]);
            assert(code[pos + 4] == enc[4]);
            assert(code[pos + 5] == enc[5]);
            assert(code[pos + 6] == enc[6]);
            assert(code[pos + 7] == enc[7]);
            assert(code[pos + 8] == enc[8]);
            lemma_le64_of_value(code, pos, x);
        },
        Immediate::I64(xs) => {
            let x = xs as u64;
            assert(enc =~= seq![7u8, (x % 0x100) as u8, ((x / 0x100) % 0x100) as u8, ((x / 0x1_0000) % 0x100) as u8, ((x / 0x100_0000) % 0x100) as u8, ((x / 0x1_0000_0000) % 0x100) as u8, ((x / 0x100_0000_0000) % 0x100) as u8, ((x / 0x1_0000_0000_0000) % 0x100) as u8, ((x / 0x100_0000_0000_0000) % 0x100) as u8]);
            assert(code[pos + 1] == enc[1]);
            assert(code[pos + 2] == enc[2]);
            assert(code[pos + 3] == enc[3]);
            assert(code[pos + 4] == enc[4]);
            assert(code[pos + 5] == enc[5]);
            assert(code[pos + 6] == enc[6]);
            assert(code[pos + 7] == enc[7]);
            assert(code[pos + 8] == enc[8]);
            lemma_le64_of_value(code, pos, x);
            assert((xs as u64) as i64 == xs) by (bit_vector);
        },
        Immediate::F64(x) => {
            assert(enc =~= seq![9u8, (x % 0x100) as u8, ((x / 0x100) % 0x100) as u8, ((x / 0x1_0000) % 0x100) as u8, ((x / 0x100_0000) % 0x100) as u8, ((x / 0x1_0000_0000) % 0x100) as u8, ((x / 0x100_0000_0000) % 0x100) as u8, ((x / 0x1_0000_0000_0000) % 0x100) as u8, ((x / 0x100_0000_0000_0000) % 0x100) as u8]);
            assert(code[pos + 1] == enc[1]);
            assert(code[pos + 2] == enc[2]);
            assert(code[pos + 3] == enc[3]);
            assert(code[pos + 4] == enc[4]);
            assert(code[pos + 5] == enc[5]);
            assert(code[pos + 6] == enc[6]);
            assert(code[pos + 7] == enc[7]);
            assert(code[pos + 8] == enc[8]);
            lemma_le64_of_value(code, pos, x);
        },
        Immediate::U8(x) => {
            assert(enc =~= seq![0u8, x]);
            assert(code[pos + 1] == enc[1]);
        },
        Immediate::I8(xs) => {
            assert(enc =~= seq![1u8, xs as u8]);
            assert(code[pos + 1] == enc[1]);
            assert((xs as u8) as i8 == xs) by (bit_vector);
        },
        _ => {},
    }
}

/// Two little-endian bytes of `x` at `pos + 1` reassemble to `x`.
proof fn lemma_le16_of_value(code: Seq<u8>, pos: int, x: u16)
    requires
        0 <= pos,
        pos + 3 <= code.len(),
        code[pos + 1] == (x % 0x100) as u8,
        code[pos + 2] == (x / 0x100) as u8,
    ensures
        le16(code[pos + 1], code[pos + 2]) == x,
{
    vstd::arithmetic::div_mod::lemma_fundamental_div_mod(x as int, 0x100);
}

/// Four little-endian bytes of `x` at `pos + 1` reassemble to `x`.
proof fn lemma_le32_of_value(code: Seq<u8>, pos: int, x: u32)
    requires
        0 <= pos,
        pos + 5 <= code.len(),
        code[pos + 1] == (x % 0x100) as u8,
        code[pos + 2] == ((x / 0x100) % 0x100) as u8,
        code[pos + 3] == ((x / 0x1_0000) % 0x100) as u8,
        code[pos + 4] == ((x / 0x100_0000) % 0x100) as u8,
    ensures
        le32(code[pos + 1], code[pos + 2], code[pos + 3], code[pos + 4]) == x,
{
    let xi = x as int;
    vstd::arithmetic::div_mod::lemma_div_denominator(xi, 0x100, 0x100);
    vstd::arithmetic::div_mod::lemma_div_denominator(xi, 0x1_0000, 0x100);
    vstd::arithmetic::div_mod::lemma_fundamental_div_mod(xi, 0x100);
    vstd::arithmetic::div_mod::lemma_fundamental_div_mod(xi / 0x100, 0x100);
    vstd::arithmetic::div_mod::lemma_fundamental_div_mod(xi / 0x1_0000, 0x100);
    assert(xi / 0x100_0000 < 0x100);
}

/// Eight little-endian bytes of `x` at `pos + 1` reassemble to `x`.
proof fn lemma_le64_of_value(code: Seq<u8>, pos: int, x: u64)
    requires
        0 <= pos,
        pos + 9 <= code.len(),
        code[pos + 1] == (x % 0x100) as u8,
        code[pos + 2] == ((x / 0x100) % 0x100) as u8,
        code[pos + 3] == ((x / 0x1_0000) % 0x100) as u8,
        code[pos + 4] == ((x / 0x100_0000) % 0x100) as u8,
        code[pos + 5] == ((x / 0x1_0000_0000) % 0x100) as u8,
        code[pos + 6] == ((x / 0x100_0000_0000) % 0x100) as u8,
        code[pos + 7] == ((x / 0x1_0000_0000_0000) % 0x100) as u8,
        code[pos + 8] == ((x / 0x100_0000_0000_0000) % 0x100) as u8,
    ensures
        le64(
            code[pos + 1],
            code[pos + 2],
            code[pos + 3],
            code[pos + 4],
            code[pos + 5],
            code[pos + 6],
            code[pos + 7],
            code[pos + 8],
        ) == x,
{
    let xi = x as int;
    vstd::arithmetic::div_mod::lemma_div_denominator(xi, 0x100, 0x100);
    vstd::arithmetic::div_mod::lemma_div_denominator(xi, 0x1_0000, 0x100);
    vstd::arithmetic::div_mod::lemma_div_denominator(xi, 0x100_0000, 0x100);
    vstd::arithmetic::div_mod::lemma_div_denominator(xi, 0x1_0000_0000, 0x100);
    vstd::arithmetic::div_mod::lemma_div_denominator(xi, 0x100_0000_0000, 0x100);
    vstd::arithmetic::div_mod::lemma_div_denominator(xi, 0x1_0000_0000_0000, 0x100);
    vstd::arithmetic::div_mod::lemma_fundamental_div_mod(xi, 0x100);
    vstd::arithmetic::div_mod::lemma_fundamental_div_mod(xi / 0x100, 0x100);
    vstd::arithmetic::div_mod::lemma_fundamental_div_mod(xi / 0x1_0000, 0x100);
    vstd::arithmetic::div_mod::lemma_fundamental_div_mod(xi / 0x100_0000, 0x100);
    vstd::arithmetic::div_mod::lemma_fundamental_div_mod(xi / 0x1_0000_0000, 0x100);
    vstd::arithmetic::div_mod::lemma_fundamental_div_mod(xi / 0x100_0000_0000, 0x100);
    vstd::arithmetic::div_mod::lemma_fundamental_div_mod(xi / 0x1_0000_0000_0000, 0x100);
    assert(xi / 0x100_0000_0000_0000 < 0x100);
}

} // verus!
