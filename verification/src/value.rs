//! The value model: tagged machine scalars and their typed operations.

use vstd::prelude::*;

verus! {

/// Index of one of the eight registers.
pub type Register = usize;

/// Index into the machine's data segment.
pub type Address = usize;

/// A machine scalar: absent, an integer of width 8/16/32/64 bits (unsigned
/// or signed), or an IEEE 754 floating value of width 32/64 bits.
///
/// A floating value is held as its raw bit pattern (`F32` the 32 bits of a
/// binary32 value, `F64` the 64 bits of a binary64 value). The decoder
/// reproduces the encoded bytes exactly in that pattern, and comparisons
/// follow IEEE 754 semantics on the pattern; only the four arithmetic
/// operations on floating values are delegated to the embedding caller.
#[derive(Debug, Copy, Clone, PartialEq, Eq, Structural)]
pub enum Immediate {
    /// The absent value, produced by an immediate type tag outside 0-9.
    Absent,
    U8(u8),
    I8(i8),
    U16(u16),
    I16(i16),
    U32(u32),
    I32(i32),
    U64(u64),
    I64(i64),
    /// An IEEE 754 binary32 value, held as its bit pattern.
    F32(u32),
    /// An IEEE 754 binary64 value, held as its bit pattern.
    F64(u64),
}

/// Why an instruction failed and aborted the run.
#[derive(Debug, Copy, Clone, PartialEq, Eq, Structural)]
pub enum VmError {
    /// A binary operation was applied to operands of two different variants.
    TypeMismatch,
    /// A binary operation was applied to a variant it is not defined on:
    /// bitwise or shift on floating values, any operation on absent values.
    UnsupportedType,
    /// Native fixed-width arithmetic could not represent the result:
    /// add/sub/mul out of range, a shift amount outside the value's width,
    /// or a call return offset above the 16-bit range.
    Overflow,
    /// Integer division by zero.
    DivisionByZero,
    /// `VPOP` or `RET` was executed on an empty stack.
    StackUnderflow,
    /// A jump, call, or return target was not a `U8` or `U16` value.
    InvalidJumpTarget,
    /// A register operand was outside the eight-slot register file.
    InvalidRegister,
    /// A data segment address was outside the segment's capacity.
    InvalidAddress,
    /// Operand bytes of an instruction run past the end of the code buffer.
    TruncatedCode,
}

/// True when the two values carry the same variant tag.
pub open spec fn same_variant(a: Immediate, b: Immediate) -> bool {
    match (a, b) {
        (Immediate::Absent, Immediate::Absent) => true,
        (Immediate::U8(_), Immediate::U8(_)) => true,
        (Immediate::I8(_), Immediate::I8(_)) => true,
        (Immediate::U16(_), Immediate::U16(_)) => true,
        (Immediate::I16(_), Immediate::I16(_)) => true,
        (Immediate::U32(_), Immediate::U32(_)) => true,
        (Immediate::I32(_), Immediate::I32(_)) => true,
        (Immediate::U64(_), Immediate::U64(_)) => true,
        (Immediate::I64(_), Immediate::I64(_)) => true,
        (Immediate::F32(_), Immediate::F32(_)) => true,
        (Immediate::F64(_), Immediate::F64(_)) => true,
        _ => false,
    }
}

/// The magnitude bits of a binary32 pattern: everything but the sign bit.
pub open spec fn f32_abs_bits(a: u32) -> u32 {
    a & 0x7fff_ffff
}

/// True when the binary32 pattern is a NaN.
pub open spec fn f32_is_nan(a: u32) -> bool {
    f32_abs_bits(a) > 0x7f80_0000
}

/// IEEE 754 equality of two binary32 patterns: NaN equals nothing, and the
/// two zeroes equal each other.
pub open spec fn f32_eq(a: u32, b: u32) -> bool {
    &&& !f32_is_nan(a)
    &&& !f32_is_nan(b)
    &&& (a == b || (f32_abs_bits(a) == 0 && f32_abs_bits(b) == 0))
}

/// IEEE 754 ordering of two binary32 patterns: sign-magnitude comparison,
/// false on any NaN, with the two zeroes equal.
pub open spec fn f32_gt(a: u32, b: u32) -> bool {
    &&& !f32_is_nan(a)
    &&& !f32_is_nan(b)
    &&& if (a >= 0x8000_0000) != (b >= 0x8000_0000) {
        b >= 0x8000_0000 && !(f32_abs_bits(a) == 0 && f32_abs_bits(b) == 0)
    } else if a < 0x8000_0000 {
        f32_abs_bits(a) > f32_abs_bits(b)
    } else {
        f32_abs_bits(a) < f32_abs_bits(b)
    }
}

/// The magnitude bits of a binary64 pattern: everything but the sign bit.
pub open spec fn f64_abs_bits(a: u64) -> u64 {
    a & 0x7fff_ffff_ffff_ffff
}

/// True when the binary64 pattern is a NaN.
pub open spec fn f64_is_nan(a: u64) -> bool {
    f64_abs_bits(a) > 0x7ff0_0000_0000_0000
}

/// IEEE 754 equality of two binary64 patterns.
pub open spec fn f64_eq(a: u64, b: u64) -> bool {
    &&& !f64_is_nan(a)
    &&& !f64_is_nan(b)
    &&& (a == b || (f64_abs_bits(a) == 0 && f64_abs_bits(b) == 0))
}

/// IEEE 754 ordering of two binary64 patterns.
pub open spec fn f64_gt(a: u64, b: u64) -> bool {
    &&& !f64_is_nan(a)
    &&& !f64_is_nan(b)
    &&& if (a >= 0x8000_0000_0000_0000) != (b >= 0x8000_0000_0000_0000) {
        b >= 0x8000_0000_0000_0000 && !(f64_abs_bits(a) == 0 && f64_abs_bits(b) == 0)
    } else if a < 0x8000_0000_0000_0000 {
        f64_abs_bits(a) > f64_abs_bits(b)
    } else {
        f64_abs_bits(a) < f64_abs_bits(b)
    }
}

/// Equality as `CMP` sees it: native per-width equality between two values
/// of the same variant, false between different variants.
pub open spec fn imm_eq(a: Immediate, b: Immediate) -> bool {
    match (a, b) {
        (Immediate::Absent, Immediate::Absent) => true,
        (Immediate::U8(x), Immediate::U8(y)) => x == y,
        (Immediate::I8(x), Immediate::I8(y)) => x == y,
        (Immediate::U16(x), Immediate::U16(y)) => x == y,
        (Immediate::I16(x), Immediate::I16(y)) => x == y,
        (Immediate::U32(x), Immediate::U32(y)) => x == y,
        (Immediate::I32(x), Immediate::I32(y)) => x == y,
        (Immediate::U64(x), Immediate::U64(y)) => x == y,
        (Immediate::I64(x), Immediate::I64(y)) => x == y,
        (Immediate::F32(x), Immediate::F32(y)) => f32_eq(x, y),
        (Immediate::F64(x), Immediate::F64(y)) => f64_eq(x, y),
        _ => false,
    }
}

/// Ordering as `CMP` sees it: native per-width `>` between two values of
/// the same variant, false between different variants.
pub open spec fn imm_gt(a: Immediate, b: Immediate) -> bool {
    match (a, b) {
        (Immediate::U8(x), Immediate::U8(y)) => x > y,
        (Immediate::I8(x), Immediate::I8(y)) => x > y,
        (Immediate::U16(x), Immediate::U16(y)) => x > y,
        (Immediate::I16(x), Immediate::I16(y)) => x > y,
        (Immediate::U32(x), Immediate::U32(y)) => x > y,
        (Immediate::I32(x), Immediate::I32(y)) => x > y,
        (Immediate::U64(x), Immediate::U64(y)) => x > y,
        (Immediate::I64(x), Immediate::I64(y)) => x > y,
        (Immediate::F32(x), Immediate::F32(y)) => f32_gt(x, y),
        (Immediate::F64(x), Immediate::F64(y)) => f64_gt(x, y),
        _ => false,
    }
}

/// Decides `imm_eq` executably.
pub fn immediate_eq(a: Immediate, b: Immediate) -> (r: bool)
    ensures
        r == imm_eq(a, b),
{
    match (a, b) {
        (Immediate::Absent, Immediate::Absent) => true,
        (Immediate::U8(x), Immediate::U8(y)) => x == y,
        (Immediate::I8(x), Immediate::I8(y)) => x == y,
        (Immediate::U16(x), Immediate::U16(y)) => x == y,
        (Immediate::I16(x), Immediate::I16(y)) => x == y,
        (Immediate::U32(x), Immediate::U32(y)) => x == y,
        (Immediate::I32(x), Immediate::I32(y)) => x == y,
        (Immediate::U64(x), Immediate::U64(y)) => x == y,
        (Immediate::I64(x), Immediate::I64(y)) => x == y,
        (Immediate::F32(x), Immediate::F32(y)) => {
            let ax = x & 0x7fff_ffff;
            let bx = y & 0x7fff_ffff;
            ax <= 0x7f80_0000 && bx <= 0x7f80_0000 && (x == y || (ax == 0 && bx == 0))
        },
        (Immediate::F64(x), Immediate::F64(y)) => {
            let ax = x & 0x7fff_ffff_ffff_ffff;
            let bx = y & 0x7fff_ffff_ffff_ffff;
            ax <= 0x7ff0_0000_0000_0000 && bx <= 0x7ff0_0000_0000_0000 && (x == y || (ax == 0
                && bx == 0))
        },
        _ => false,
    }
}

/// Decides `imm_gt` executably.
pub fn immediate_gt(a: Immediate, b: Immediate) -> (r: bool)
    ensures
        r == imm_gt(a, b),
{
    match (a, b) {
        (Immediate::U8(x), Immediate::U8(y)) => x > y,
        (Immediate::I8(x), Immediate::I8(y)) => x > y,
        (Immediate::U16(x), Immediate::U16(y)) => x > y,
        (Immediate::I16(x), Immediate::I16(y)) => x > y,
        (Immediate::U32(x), Immediate::U32(y)) => x > y,
        (Immediate::I32(x), Immediate::I32(y)) => x > y,
        (Immediate::U64(x), Immediate::U64(y)) => x > y,
        (Immediate::I64(x), Immediate::I64(y)) => x > y,
        (Immediate::F32(x), Immediate::F32(y)) => {
            let ax = x & 0x7fff_ffff;
            let bx = y & 0x7fff_ffff;
            if ax > 0x7f80_0000 || bx > 0x7f80_0000 {
                false
            } else if (x >= 0x8000_0000) != (y >= 0x8000_0000) {
                y >= 0x8000_0000 && !(ax == 0 && bx == 0)
            } else if x < 0x8000_0000 {
                ax > bx
            } else {
                ax < bx
            }
        },
        (Immediate::F64(x), Immediate::F64(y)) => {
            let ax = x & 0x7fff_ffff_ffff_ffff;
            let bx = y & 0x7fff_ffff_ffff_ffff;
            if ax > 0x7ff0_0000_0000_0000 || bx > 0x7ff0_0000_0000_0000 {
                false
            } else if (x >= 0x8000_0000_0000_0000) != (y >= 0x8000_0000_0000_0000) {
                y >= 0x8000_0000_0000_0000 && !(ax == 0 && bx == 0)
            } else if x < 0x8000_0000_0000_0000 {
                ax > bx
            } else {
                ax < bx
            }
        },
        _ => false,
    }
}


/// Selector for the shared binary-operation routine, as the design factors
/// every arithmetic, bitwise, and shift instruction through one place.
#[derive(Debug, Copy, Clone, PartialEq, Eq, Structural)]
pub enum BinOp {
    Add,
    Sub,
    Mul,
    Div,
    And,
    Or,
    Xor,
    Shr,
    Shl,
}

/// True for the four operations that are defined on floating values and
/// therefore delegated to the embedding caller when both operands are
/// floating.
pub open spec fn is_arith(op: BinOp) -> bool {
    op == BinOp::Add || op == BinOp::Sub || op == BinOp::Mul || op == BinOp::Div
}

/// The nine binary operations on two `u8` operands, with native
/// fixed-width semantics; a fault is an explicit error.
pub open spec fn spec_binop_u8(op: BinOp, x: u8, y: u8) -> Result<Immediate, VmError> {
    match op {
        BinOp::Add => match x.checked_add(y) {
            Some(v) => Ok(Immediate::U8(v)),
            None => Err(VmError::Overflow),
        },
        BinOp::Sub => match x.checked_sub(y) {
            Some(v) => Ok(Immediate::U8(v)),
            None => Err(VmError::Overflow),
        },
        BinOp::Mul => match x.checked_mul(y) {
            Some(v) => Ok(Immediate::U8(v)),
            None => Err(VmError::Overflow),
        },
        BinOp::Div => match x.checked_div(y) {
            Some(v) => Ok(Immediate::U8(v)),
            None => Err(VmError::DivisionByZero),
        },
        BinOp::And => Ok(Immediate::U8(x & y)),
        BinOp::Or => Ok(Immediate::U8(x | y)),
        BinOp::Xor => Ok(Immediate::U8(x ^ y)),
        BinOp::Shr => if y < 8 {
            Ok(Immediate::U8(x >> y))
        } else {
            Err(VmError::Overflow)
        },
        BinOp::Shl => if y < 8 {
            Ok(Immediate::U8(x << y))
        } else {
            Err(VmError::Overflow)
        },
    }
}

fn binop_u8(op: BinOp, x: u8, y: u8) -> (r: Result<Immediate, VmError>)
    ensures
        r == spec_binop_u8(op, x, y),
{
    match op {
        BinOp::Add => match x.checked_add(y) {
            Some(v) => Ok(Immediate::U8(v)),
            None => Err(VmError::Overflow),
        },
        BinOp::Sub => match x.checked_sub(y) {
            Some(v) => Ok(Immediate::U8(v)),
            None => Err(VmError::Overflow),
        },
        BinOp::Mul => match x.checked_mul(y) {
            Some(v) => Ok(Immediate::U8(v)),
            None => Err(VmError::Overflow),
        },
        BinOp::Div => match x.checked_div(y) {
            Some(v) => Ok(Immediate::U8(v)),
            None => Err(VmError::DivisionByZero),
        },
        BinOp::And => Ok(Immediate::U8(x & y)),
        BinOp::Or => Ok(Immediate::U8(x | y)),
        BinOp::Xor => Ok(Immediate::U8(x ^ y)),
        BinOp::Shr => if y < 8 {
            Ok(Immediate::U8(x >> y))
        } else {
            Err(VmError::Overflow)
        },
        BinOp::Shl => if y < 8 {
            Ok(Immediate::U8(x << y))
        } else {
            Err(VmError::Overflow)
        },
    }
}

/// The nine binary operations on two `i8` operands, with native
/// fixed-width semantics; a fault is an explicit error.
pub open spec fn spec_binop_i8(op: BinOp, x: i8, y: i8) -> Result<Immediate, VmError> {
    match op {
        BinOp::Add => match x.checked_add(y) {
            Some(v) => Ok(Immediate::I8(v)),
            None => Err(VmError::Overflow),
        },
        BinOp::Sub => match x.checked_sub(y) {
            Some(v) => Ok(Immediate::I8(v)),
            None => Err(VmError::Overflow),
        },
        BinOp::Mul => match x.checked_mul(y) {
            Some(v) => Ok(Immediate::I8(v)),
            None => Err(VmError::Overflow),
        },
        BinOp::Div => match x.checked_div(y) {
            Some(v) => Ok(Immediate::I8(v)),
            None => if y == 0 {
                Err(VmError::DivisionByZero)
            } else {
                Err(VmError::Overflow)
            },
        },
        BinOp::And => Ok(Immediate::I8(x & y)),
        BinOp::Or => Ok(Immediate::I8(x | y)),
        BinOp::Xor => Ok(Immediate::I8(x ^ y)),
        BinOp::Shr => if 0 <= y && y < 8 {
            Ok(Immediate::I8(x >> y))
        } else {
            Err(VmError::Overflow)
        },
        BinOp::Shl => if 0 <= y && y < 8 {
            Ok(Immediate::I8(x << y))
        } else {
            Err(VmError::Overflow)
        },
    }
}

fn binop_i8(op: BinOp, x: i8, y: i8) -> (r: Result<Immediate, VmError>)
    ensures
        r == spec_binop_i8(op, x, y),
{
    match op {
        BinOp::Add => match x.checked_add(y) {
            Some(v) => Ok(Immediate::I8(v)),
            None => Err(VmError::Overflow),
        },
        BinOp::Sub => match x.checked_sub(y) {
            Some(v) => Ok(Immediate::I8(v)),
            None => Err(VmError::Overflow),
        },
        BinOp::Mul => match x.checked_mul(y) {
            Some(v) => Ok(Immediate::I8(v)),
            None => Err(VmError::Overflow),
        },
        BinOp::Div => match x.checked_div(y) {
            Some(v) => Ok(Immediate::I8(v)),
            None => if y == 0 {
                Err(VmError::DivisionByZero)
            } else {
                Err(VmError::Overflow)
            },
        },
        BinOp::And => Ok(Immediate::I8(x & y)),
        BinOp::Or => Ok(Immediate::I8(x | y)),
        BinOp::Xor => Ok(Immediate::I8(x ^ y)),
        BinOp::Shr => if 0 <= y && y < 8 {
            Ok(Immediate::I8(x >> y))
        } else {
            Err(VmError::Overflow)
        },
        BinOp::Shl => if 0 <= y && y < 8 {
            Ok(Immediate::I8(x << y))
        } else {
            Err(VmError::Overflow)
        },
    }
}

/// The nine binary operations on two `u16` operands, with native
/// fixed-width semantics; a fault is an explicit error.
pub open spec fn spec_binop_u16(op: BinOp, x: u16, y: u16) -> Result<Immediate, VmError> {
    match op {
        BinOp::Add => match x.checked_add(y) {
            Some(v) => Ok(Immediate::U16(v)),
            None => Err(VmError::Overflow),
        },
        BinOp::Sub => match x.checked_sub(y) {
            Some(v) => Ok(Immediate::U16(v)),
            None => Err(VmError::Overflow),
        },
        BinOp::Mul => match x.checked_mul(y) {
            Some(v) => Ok(Immediate::U16(v)),
            None => Err(VmError::Overflow),
        },
        BinOp::Div => match x.checked_div(y) {
            Some(v) => Ok(Immediate::U16(v)),
            None => Err(VmError::DivisionByZero),
        },
        BinOp::And => Ok(Immediate::U16(x & y)),
        BinOp::Or => Ok(Immediate::U16(x | y)),
        BinOp::Xor => Ok(Immediate::U16(x ^ y)),
        BinOp::Shr => if y < 16 {
            Ok(Immediate::U16(x >> y))
        } else {
            Err(VmError::Overflow)
        },
        BinOp::Shl => if y < 16 {
            Ok(Immediate::U16(x << y))
        } else {
            Err(VmError::Overflow)
        },
    }
}

fn binop_u16(op: BinOp, x: u16, y: u16) -> (r: Result<Immediate, VmError>)
    ensures
        r == spec_binop_u16(op, x, y),
{
    match op {
        BinOp::Add => match x.checked_add(y) {
            Some(v) => Ok(Immediate::U16(v)),
            None => Err(VmError::Overflow),
        },
        BinOp::Sub => match x.checked_sub(y) {
            Some(v) => Ok(Immediate::U16(v)),
            None => Err(VmError::Overflow),
        },
        BinOp::Mul => match x.checked_mul(y) {
            Some(v) => Ok(Immediate::U16(v)),
            None => Err(VmError::Overflow),
        },
        BinOp::Div => match x.checked_div(y) {
            Some(v) => Ok(Immediate::U16(v)),
            None => Err(VmError::DivisionByZero),
        },
        BinOp::And => Ok(Immediate::U16(x & y)),
        BinOp::Or => Ok(Immediate::U16(x | y)),
        BinOp::Xor => Ok(Immediate::U16(x ^ y)),
        BinOp::Shr => if y < 16 {
            Ok(Immediate::U16(x >> y))
        } else {
            Err(VmError::Overflow)
        },
        BinOp::Shl => if y < 16 {
            Ok(Immediate::U16(x << y))
        } else {
            Err(VmError::Overflow)
        },
    }
}

/// The nine binary operations on two `i16` operands, with native
/// fixed-width semantics; a fault is an explicit error.
pub open spec fn spec_binop_i16(op: BinOp, x: i16, y: i16) -> Result<Immediate, VmError> {
    match op {
        BinOp::Add => match x.checked_add(y) {
            Some(v) => Ok(Immediate::I16(v)),
            None => Err(VmError::Overflow),
        },
        BinOp::Sub => match x.checked_sub(y) {
            Some(v) => Ok(Immediate::I16(v)),
            None => Err(VmError::Overflow),
        },
        BinOp::Mul => match x.checked_mul(y) {
            Some(v) => Ok(Immediate::I16(v)),
            None => Err(VmError::Overflow),
        },
        BinOp::Div => match x.checked_div(y) {
            Some(v) => Ok(Immediate::I16(v)),
            None => if y == 0 {
                Err(VmError::DivisionByZero)
            } else {
                Err(VmError::Overflow)
            },
        },
        BinOp::And => Ok(Immediate::I16(x & y)),
        BinOp::Or => Ok(Immediate::I16(x | y)),
        BinOp::Xor => Ok(Immediate::I16(x ^ y)),
        BinOp::Shr => if 0 <= y && y < 16 {
            Ok(Immediate::I16(x >> y))
        } else {
            Err(VmError::Overflow)
        },
        BinOp::Shl => if 0 <= y && y < 16 {
            Ok(Immediate::I16(x << y))
        } else {
            Err(VmError::Overflow)
        },
    }
}

fn binop_i16(op: BinOp, x: i16, y: i16) -> (r: Result<Immediate, VmError>)
    ensures
        r == spec_binop_i16(op, x, y),
{
    match op {
        BinOp::Add => match x.checked_add(y) {
            Some(v) => Ok(Immediate::I16(v)),
            None => Err(VmError::Overflow),
        },
        BinOp::Sub => match x.checked_sub(y) {
            Some(v) => Ok(Immediate::I16(v)),
            None => Err(VmError::Overflow),
        },
        BinOp::Mul => match x.checked_mul(y) {
            Some(v) => Ok(Immediate::I16(v)),
            None => Err(VmError::Overflow),
        },
        BinOp::Div => match x.checked_div(y) {
            Some(v) => Ok(Immediate::I16(v)),
            None => if y == 0 {
                Err(VmError::DivisionByZero)
            } else {
                Err(VmError::Overflow)
            },
        },
        BinOp::And => Ok(Immediate::I16(x & y)),
        BinOp::Or => Ok(Immediate::I16(x | y)),
        BinOp::Xor => Ok(Immediate::I16(x ^ y)),
        BinOp::Shr => if 0 <= y && y < 16 {
            Ok(Immediate::I16(x >> y))
        } else {
            Err(VmError::Overflow)
        },
        BinOp::Shl => if 0 <= y && y < 16 {
            Ok(Immediate::I16(x << y))
        } else {
            Err(VmError::Overflow)
        },
    }
}

/// The nine binary operations on two `u32` operands, with native
/// fixed-width semantics; a fault is an explicit error.
pub open spec fn spec_binop_u32(op: BinOp, x: u32, y: u32) -> Result<Immediate, VmError> {
    match op {
        BinOp::Add => match x.checked_add(y) {
            Some(v) => Ok(Immediate::U32(v)),
            None => Err(VmError::Overflow),
        },
        BinOp::Sub => match x.checked_sub(y) {
            Some(v) => Ok(Immediate::U32(v)),
            None => Err(VmError::Overflow),
        },
        BinOp::Mul => match x.checked_mul(y) {
            Some(v) => Ok(Immediate::U32(v)),
            None => Err(VmError::Overflow),
        },
        BinOp::Div => match x.checked_div(y) {
            Some(v) => Ok(Immediate::U32(v)),
            None => Err(VmError::DivisionByZero),
        },
        BinOp::And => Ok(Immediate::U32(x & y)),
        BinOp::Or => Ok(Immediate::U32(x | y)),
        BinOp::Xor => Ok(Immediate::U32(x ^ y)),
        BinOp::Shr => if y < 32 {
            Ok(Immediate::U32(x >> y))
        } else {
            Err(VmError::Overflow)
        },
        BinOp::Shl => if y < 32 {
            Ok(Immediate::U32(x << y))
        } else {
            Err(VmError::Overflow)
        },
    }
}

fn binop_u32(op: BinOp, x: u32, y: u32) -> (r: Result<Immediate, VmError>)
    ensures
        r == spec_binop_u32(op, x, y),
{
    match op {
        BinOp::Add => match x.checked_add(y) {
            Some(v) => Ok(Immediate::U32(v)),
            None => Err(VmError::Overflow),
        },
        BinOp::Sub => match x.checked_sub(y) {
            Some(v) => Ok(Immediate::U32(v)),
            None => Err(VmError::Overflow),
        },
        BinOp::Mul => match x.checked_mul(y) {
            Some(v) => Ok(Immediate::U32(v)),
            None => Err(VmError::Overflow),
        },
        BinOp::Div => match x.checked_div(y) {
            Some(v) => Ok(Immediate::U32(v)),
            None => Err(VmError::DivisionByZero),
        },
        BinOp::And => Ok(Immediate::U32(x & y)),
        BinOp::Or => Ok(Immediate::U32(x | y)),
        BinOp::Xor => Ok(Immediate::U32(x ^ y)),
        BinOp::Shr => if y < 32 {
            Ok(Immediate::U32(x >> y))
        } else {
            Err(VmError::Overflow)
        },
        BinOp::Shl => if y < 32 {
            Ok(Immediate::U32(x << y))
        } else {
            Err(VmError::Overflow)
        },
    }
}

/// The nine binary operations on two `i32` operands, with native
/// fixed-width semantics; a fault is an explicit error.
pub open spec fn spec_binop_i32(op: BinOp, x: i32, y: i32) -> Result<Immediate, VmError> {
    match op {
        BinOp::Add => match x.checked_add(y) {
            Some(v) => Ok(Immediate::I32(v)),
            None => Err(VmError::Overflow),
        },
        BinOp::Sub => match x.checked_sub(y) {
            Some(v) => Ok(Immediate::I32(v)),
            None => Err(VmError::Overflow),
        },
        BinOp::Mul => match x.checked_mul(y) {
            Some(v) => Ok(Immediate::I32(v)),
            None => Err(VmError::Overflow),
        },
        BinOp::Div => match x.checked_div(y) {
            Some(v) => Ok(Immediate::I32(v)),
            None => if y == 0 {
                Err(VmError::DivisionByZero)
            } else {
                Err(VmError::Overflow)
            },
        },
        BinOp::And => Ok(Immediate::I32(x & y)),
        BinOp::Or => Ok(Immediate::I32(x | y)),
        BinOp::Xor => Ok(Immediate::I32(x ^ y)),
        BinOp::Shr => if 0 <= y && y < 32 {
            Ok(Immediate::I32(x >> y))
        } else {
            Err(VmError::Overflow)
        },
        BinOp::Shl => if 0 <= y && y < 32 {
            Ok(Immediate::I32(x << y))
        } else {
            Err(VmError::Overflow)
        },
    }
}

fn binop_i32(op: BinOp, x: i32, y: i32) -> (r: Result<Immediate, VmError>)
    ensures
        r == spec_binop_i32(op, x, y),
{
    match op {
        BinOp::Add => match x.checked_add(y) {
            Some(v) => Ok(Immediate::I32(v)),
            None => Err(VmError::Overflow),
        },
        BinOp::Sub => match x.checked_sub(y) {
            Some(v) => Ok(Immediate::I32(v)),
            None => Err(VmError::Overflow),
        },
        BinOp::Mul => match x.checked_mul(y) {
            Some(v) => Ok(Immediate::I32(v)),
            None => Err(VmError::Overflow),
        },
        BinOp::Div => match x.checked_div(y) {
            Some(v) => Ok(Immediate::I32(v)),
            None => if y == 0 {
                Err(VmError::DivisionByZero)
            } else {
                Err(VmError::Overflow)
            },
        },
        BinOp::And => Ok(Immediate::I32(x & y)),
        BinOp::Or => Ok(Immediate::I32(x | y)),
        BinOp::Xor => Ok(Immediate::I32(x ^ y)),
        BinOp::Shr => if 0 <= y && y < 32 {
            Ok(Immediate::I32(x >> y))
        } else {
            Err(VmError::Overflow)
        },
        BinOp::Shl => if 0 <= y && y < 32 {
            Ok(Immediate::I32(x << y))
        } else {
            Err(VmError::Overflow)
        },
    }
}

/// The nine binary operations on two `u64` operands, with native
/// fixed-width semantics; a fault is an explicit error.
pub open spec fn spec_binop_u64(op: BinOp, x: u64, y: u64) -> Result<Immediate, VmError> {
    match op {
        BinOp::Add => match x.checked_add(y) {
            Some(v) => Ok(Immediate::U64(v)),
            None => Err(VmError::Overflow),
        },
        BinOp::Sub => match x.checked_sub(y) {
            Some(v) => Ok(Immediate::U64(v)),
            None => Err(VmError::Overflow),
        },
        BinOp::Mul => match x.checked_mul(y) {
            Some(v) => Ok(Immediate::U64(v)),
            None => Err(VmError::Overflow),
        },
        BinOp::Div => match x.checked_div(y) {
            Some(v) => Ok(Immediate::U64(v)),
            None => Err(VmError::DivisionByZero),
        },
        BinOp::And => Ok(Immediate::U64(x & y)),
        BinOp::Or => Ok(Immediate::U64(x | y)),
        BinOp::Xor => Ok(Immediate::U64(x ^ y)),
        BinOp::Shr => if y < 64 {
            Ok(Immediate::U64(x >> y))
        } else {
            Err(VmError::Overflow)
        },
        BinOp::Shl => if y < 64 {
            Ok(Immediate::U64(x << y))
        } else {
            Err(VmError::Overflow)
        },
    }
}

fn binop_u64(op: BinOp, x: u64, y: u64) -> (r: Result<Immediate, VmError>)
    ensures
        r == spec_binop_u64(op, x, y),
{
    match op {
        BinOp::Add => match x.checked_add(y) {
            Some(v) => Ok(Immediate::U64(v)),
            None => Err(VmError::Overflow),
        },
        BinOp::Sub => match x.checked_sub(y) {
            Some(v) => Ok(Immediate::U64(v)),
            None => Err(VmError::Overflow),
        },
        BinOp::Mul => match x.checked_mul(y) {
            Some(v) => Ok(Immediate::U64(v)),
            None => Err(VmError::Overflow),
        },
        BinOp::Div => match x.checked_div(y) {
            Some(v) => Ok(Immediate::U64(v)),
            None => Err(VmError::DivisionByZero),
        },
        BinOp::And => Ok(Immediate::U64(x & y)),
        BinOp::Or => Ok(Immediate::U64(x | y)),
        BinOp::Xor => Ok(Immediate::U64(x ^ y)),
        BinOp::Shr => if y < 64 {
            Ok(Immediate::U64(x >> y))
        } else {
            Err(VmError::Overflow)
        },
        BinOp::Shl => if y < 64 {
            Ok(Immediate::U64(x << y))
        } else {
            Err(VmError::Overflow)
        },
    }
}

/// The nine binary operations on two `i64` operands, with native
/// fixed-width semantics; a fault is an explicit error.
pub open spec fn spec_binop_i64(op: BinOp, x: i64, y: i64) -> Result<Immediate, VmError> {
    match op {
        BinOp::Add => match x.checked_add(y) {
            Some(v) => Ok(Immediate::I64(v)),
            None => Err(VmError::Overflow),
        },
        BinOp::Sub => match x.checked_sub(y) {
            Some(v) => Ok(Immediate::I64(v)),
            None => Err(VmError::Overflow),
        },
        BinOp::Mul => match x.checked_mul(y) {
            Some(v) => Ok(Immediate::I64(v)),
            None => Err(VmError::Overflow),
        },
        BinOp::Div => match x.checked_div(y) {
            Some(v) => Ok(Immediate::I64(v)),
            None => if y == 0 {
                Err(VmError::DivisionByZero)
            } else {
                Err(VmError::Overflow)
            },
        },
        BinOp::And => Ok(Immediate::I64(x & y)),
        BinOp::Or => Ok(Immediate::I64(x | y)),
        BinOp::Xor => Ok(Immediate::I64(x ^ y)),
        BinOp::Shr => if 0 <= y && y < 64 {
            Ok(Immediate::I64(x >> y))
        } else {
            Err(VmError::Overflow)
        },
        BinOp::Shl => if 0 <= y && y < 64 {
            Ok(Immediate::I64(x << y))
        } else {
            Err(VmError::Overflow)
        },
    }
}

fn binop_i64(op: BinOp, x: i64, y: i64) -> (r: Result<Immediate, VmError>)
    ensures
        r == spec_binop_i64(op, x, y),
{
    match op {
        BinOp::Add => match x.checked_add(y) {
            Some(v) => Ok(Immediate::I64(v)),
            None => Err(VmError::Overflow),
        },
        BinOp::Sub => match x.checked_sub(y) {
            Some(v) => Ok(Immediate::I64(v)),
            None => Err(VmError::Overflow),
        },
        BinOp::Mul => match x.checked_mul(y) {
            Some(v) => Ok(Immediate::I64(v)),
            None => Err(VmError::Overflow),
        },
        BinOp::Div => match x.checked_div(y) {
            Some(v) => Ok(Immediate::I64(v)),
            None => if y == 0 {
                Err(VmError::DivisionByZero)
            } else {
                Err(VmError::Overflow)
            },
        },
        BinOp::And => Ok(Immediate::I64(x & y)),
        BinOp::Or => Ok(Immediate::I64(x | y)),
        BinOp::Xor => Ok(Immediate::I64(x ^ y)),
        BinOp::Shr => if 0 <= y && y < 64 {
            Ok(Immediate::I64(x >> y))
        } else {
            Err(VmError::Overflow)
        },
        BinOp::Shl => if 0 <= y && y < 64 {
            Ok(Immediate::I64(x << y))
        } else {
            Err(VmError::Overflow)
        },
    }
}

/// The shared "apply a same-variant binary operation" routine of the value
/// model: native per-width semantics on matching integer variants, an
/// explicit error on mismatched variants, on absent values, and on floating
/// values (whose arithmetic the machine delegates before coming here).
pub open spec fn spec_apply_binop(op: BinOp, a: Immediate, b: Immediate) -> Result<
    Immediate,
    VmError,
> {
    match (a, b) {
        (Immediate::U8(x), Immediate::U8(y)) => spec_binop_u8(op, x, y),
        (Immediate::I8(x), Immediate::I8(y)) => spec_binop_i8(op, x, y),
        (Immediate::U16(x), Immediate::U16(y)) => spec_binop_u16(op, x, y),
        (Immediate::I16(x), Immediate::I16(y)) => spec_binop_i16(op, x, y),
        (Immediate::U32(x), Immediate::U32(y)) => spec_binop_u32(op, x, y),
        (Immediate::I32(x), Immediate::I32(y)) => spec_binop_i32(op, x, y),
        (Immediate::U64(x), Immediate::U64(y)) => spec_binop_u64(op, x, y),
        (Immediate::I64(x), Immediate::I64(y)) => spec_binop_i64(op, x, y),
        (Immediate::Absent, Immediate::Absent) => Err(VmError::UnsupportedType),
        (Immediate::F32(_), Immediate::F32(_)) => Err(VmError::UnsupportedType),
        (Immediate::F64(_), Immediate::F64(_)) => Err(VmError::UnsupportedType),
        _ => Err(VmError::TypeMismatch),
    }
}

/// Applies `spec_apply_binop` executably.
pub fn apply_binop(op: BinOp, a: Immediate, b: Immediate) -> (r: Result<Immediate, VmError>)
    ensures
        r == spec_apply_binop(op, a, b),
{
    match (a, b) {
        (Immediate::U8(x), Immediate::U8(y)) => binop_u8(op, x, y),
        (Immediate::I8(x), Immediate::I8(y)) => binop_i8(op, x, y),
        (Immediate::U16(x), Immediate::U16(y)) => binop_u16(op, x, y),
        (Immediate::I16(x), Immediate::I16(y)) => binop_i16(op, x, y),
        (Immediate::U32(x), Immediate::U32(y)) => binop_u32(op, x, y),
        (Immediate::I32(x), Immediate::I32(y)) => binop_i32(op, x, y),
        (Immediate::U64(x), Immediate::U64(y)) => binop_u64(op, x, y),
        (Immediate::I64(x), Immediate::I64(y)) => binop_i64(op, x, y),
        (Immediate::Absent, Immediate::Absent) => Err(VmError::UnsupportedType),
        (Immediate::F32(_), Immediate::F32(_)) => Err(VmError::UnsupportedType),
        (Immediate::F64(_), Immediate::F64(_)) => Err(VmError::UnsupportedType),
        _ => Err(VmError::TypeMismatch),
    }
}

} // verus!
