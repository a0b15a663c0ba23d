//! The instruction set and the byte-level decoder.
//!
//! An instruction is an opcode byte followed by its operand bytes, consumed
//! left to right. A register or address operand is one byte. An immediate
//! operand is a one-byte type tag (0=U8, 1=I8, 2=U16, 3=I16, 4=U32, 5=I32,
//! 6=U64, 7=I64, 8=F32, 9=F64) followed by the little-endian bytes of the
//! value at that width. An opcode byte above 29 decodes as `NOP` consuming
//! one byte; a type tag above 9 decodes as the absent value consuming one
//! byte. Reading past the end of the code buffer is an explicit
//! `TruncatedCode` error.
//!
//! The spec decoders return the decoded item together with the position one
//! past its last consumed byte; the machine keeps its instruction pointer on
//! the last consumed byte, as the dispatch loop advances it once more after
//! every instruction.

use vstd::prelude::*;

use crate::value::Address;
use crate::value::Immediate;
use crate::value::Register;
use crate::value::VmError;

verus! {

/// One decoded operation of the machine. Instructions are pure
/// descriptions; the execution engine gives them meaning.
#[derive(Debug, Copy, Clone, PartialEq, Eq, Structural)]
pub enum Instruction {
    /// do nothing
    NOP(),
    /// move an immediate into a register
    MOV(Register, Immediate),
    /// copy one register into another
    MOVR(Register, Register),
    /// jump to the location in the register
    JMP(Register),
    /// jump if the equal flag is set
    JE(Register),
    /// jump if the equal flag is clear
    JNE(Register),
    /// jump if the greater flag is set
    JG(Register),
    /// jump if the greater flag is clear
    JL(Register),
    /// compare two registers into the flags
    CMP(Register, Register),
    /// emit a register's value on the trace
    PRINTR(Register),
    /// emit a data segment value on the trace
    PRINTV(Address),
    /// store an immediate into the data segment
    VSTORE(Address, Immediate),
    /// push a data segment value onto the stack
    VLOAD(Address),
    /// store a register into the data segment
    VSTORER(Address, Register),
    /// load a data segment value into a register
    VLOADR(Register, Address),
    /// add two registers, pushing the result
    ADD(Register, Register),
    /// subtract two registers, pushing the result
    SUB(Register, Register),
    /// multiply two registers, pushing the result
    MUL(Register, Register),
    /// divide two registers, pushing the result
    DIV(Register, Register),
    /// bitwise and of two registers, pushing the result
    AND(Register, Register),
    /// bitwise or of two registers, pushing the result
    OR(Register, Register),
    /// bitwise xor of two registers, pushing the result
    XOR(Register, Register),
    /// shift a register right by an immediate, pushing the result
    SHR(Register, Immediate),
    /// shift a register left by an immediate, pushing the result
    SHL(Register, Immediate),
    /// push an immediate onto the stack
    VPUSH(Immediate),
    /// push a register's value onto the stack
    VPUSHR(Register),
    /// pop the stack into a register
    VPOP(Register),
    /// push the return offset, then jump
    CALL(Register),
    /// return to a popped offset
    RET(),
    /// stop the run
    HALT(),
}

/// The number of value bytes that follow an immediate type tag.
pub open spec fn imm_width(tag: u8) -> int {
    if tag == 0 || tag == 1 {
        1
    } else if tag == 2 || tag == 3 {
        2
    } else if tag == 4 || tag == 5 || tag == 8 {
        4
    } else {
        8
    }
}

/// A 16-bit value from two little-endian bytes.
pub open spec fn le16(b0: u8, b1: u8) -> u16 {
    (b0 + b1 * 0x100) as u16
}

/// A 32-bit value from four little-endian bytes.
pub open spec fn le32(b0: u8, b1: u8, b2: u8, b3: u8) -> u32 {
    (b0 + b1 * 0x100 + b2 * 0x1_0000 + b3 * 0x100_0000) as u32
}

/// A 64-bit value from eight little-endian bytes.
pub open spec fn le64(b0: u8, b1: u8, b2: u8, b3: u8, b4: u8, b5: u8, b6: u8, b7: u8) -> u64 {
    (b0 + b1 * 0x100 + b2 * 0x1_0000 + b3 * 0x100_0000 + b4 * 0x1_0000_0000 + b5
        * 0x100_0000_0000 + b6 * 0x1_0000_0000_0000 + b7 * 0x100_0000_0000_0000) as u64
}

/// The immediate decoded with its type tag at `pos`, and the position one
/// past its last byte; `None` when the bytes run out.
pub open spec fn spec_decode_immediate(code: Seq<u8>, pos: int) -> Option<(Immediate, int)> {
    if !(0 <= pos < code.len()) {
        None
    } else {
        let tag = code[pos];
        if tag > 9 {
            Some((Immediate::Absent, pos + 1))
        } else if pos + 1 + imm_width(tag) > code.len() {
            None
        } else {
            let v = if tag == 0 {
                Immediate::U8(code[pos + 1])
            } else if tag == 1 {
                Immediate::I8(code[pos + 1] as i8)
            } else if tag == 2 {
                Immediate::U16(le16(code[pos + 1], code[pos + 2]))
            } else if tag == 3 {
                Immediate::I16(le16(code[pos + 1], code[pos + 2]) as i16)
            } else if tag == 4 {
                Immediate::U32(le32(code[pos + 1], code[pos + 2], code[pos + 3], code[pos + 4]))
            } else if tag == 5 {
                Immediate::I32(
                    le32(code[pos + 1], code[pos + 2], code[pos + 3], code[pos + 4]) as i32,
                )
            } else if tag == 6 {
                Immediate::U64(
                    le64(
                        code[pos + 1],
                        code[pos + 2],
                        code[pos + 3],
                        code[pos + 4],
                        code[pos + 5],
                        code[pos + 6],
                        code[pos + 7],
                        code[pos + 8],
                    ),
                )
            } else if tag == 7 {
                Immediate::I64(
                    le64(
                        code[pos + 1],
                        code[pos + 2],
                        code[pos + 3],
                        code[pos + 4],
                        code[pos + 5],
                        code[pos + 6],
                        code[pos + 7],
                        code[pos + 8],
                    ) as i64,
                )
            } else if tag == 8 {
                Immediate::F32(le32(code[pos + 1], code[pos + 2], code[pos + 3], code[pos + 4]))
            } else {
                Immediate::F64(
                    le64(
                        code[pos + 1],
                        code[pos + 2],
                        code[pos + 3],
                        code[pos + 4],
                        code[pos + 5],
                        code[pos + 6],
                        code[pos + 7],
                        code[pos + 8],
                    ),
                )
            };
            Some((v, pos + 1 + imm_width(tag)))
        }
    }
}

/// The instruction decoded with its opcode at `pos`, and the position one
/// past its last consumed byte; `None` when operand bytes run out.
pub open spec fn spec_decode(code: Seq<u8>, pos: int) -> Option<(Instruction, int)> {
    if !(0 <= pos < code.len()) {
        None
    } else {
        let opcode = code[pos];
        if opcode == 0 {
            Some((Instruction::NOP(), pos + 1))
        } else if opcode == 21 {
            Some((Instruction::RET(), pos + 1))
        } else if opcode == 22 {
            Some((Instruction::HALT(), pos + 1))
        } else if opcode == 17 {
            match spec_decode_immediate(code, pos + 1) {
                Some((v, end)) => Some((Instruction::VPUSH(v), end)),
                None => None,
            }
        } else if opcode == 1 || opcode == 9 || opcode == 28 || opcode == 29 {
            if pos + 1 >= code.len() {
                None
            } else {
                let b = code[pos + 1] as usize;
                match spec_decode_immediate(code, pos + 2) {
                    Some((v, end)) => Some(
                        (
                            if opcode == 1 {
                            Instruction::MOV(b, v)
                        } else if opcode == 9 {
                            Instruction::VSTORE(b, v)
                        } else if opcode == 28 {
                            Instruction::SHR(b, v)
                        } else {
                            Instruction::SHL(b, v)
                        },
                            end,
                        ),
                    ),
                    None => None,
                }
            }
        } else if opcode == 3 || opcode == 4 || opcode == 5 || opcode == 7 || opcode == 8 || opcode == 10 || opcode == 18 || opcode == 19 || opcode == 20 || opcode == 23 || opcode == 24 {
            if code.len() - pos < 2 {
                None
            } else {
                let b = code[pos + 1] as usize;
                Some((if opcode == 3 {
                    Instruction::JMP(b)
                } else if opcode == 4 {
                    Instruction::JE(b)
                } else if opcode == 5 {
                    Instruction::JNE(b)
                } else if opcode == 7 {
                    Instruction::PRINTR(b)
                } else if opcode == 8 {
                    Instruction::PRINTV(b)
                } else if opcode == 10 {
                    Instruction::VLOAD(b)
                } else if opcode == 18 {
                    Instruction::VPUSHR(b)
                } else if opcode == 19 {
                    Instruction::VPOP(b)
                } else if opcode == 20 {
                    Instruction::CALL(b)
                } else if opcode == 23 {
                    Instruction::JG(b)
                } else {
                    Instruction::JL(b)
                }, pos + 2))
            }
        } else if opcode == 2 || opcode == 6 || opcode == 11 || opcode == 12 || opcode == 13 || opcode == 14 || opcode == 15 || opcode == 16 || opcode == 25 || opcode == 26 || opcode == 27 {
            if code.len() - pos < 3 {
                None
            } else {
                let b1 = code[pos + 1] as usize;
                let b2 = code[pos + 2] as usize;
                Some((if opcode == 2 {
                    Instruction::MOVR(b1, b2)
                } else if opcode == 6 {
                    Instruction::CMP(b1, b2)
                } else if opcode == 11 {
                    Instruction::ADD(b1, b2)
                } else if opcode == 12 {
                    Instruction::SUB(b1, b2)
                } else if opcode == 13 {
                    Instruction::MUL(b1, b2)
                } else if opcode == 14 {
                    Instruction::DIV(b1, b2)
                } else if opcode == 15 {
                    Instruction::VSTORER(b1, b2)
                } else if opcode == 16 {
                    Instruction::VLOADR(b1, b2)
                } else if opcode == 25 {
                    Instruction::AND(b1, b2)
                } else if opcode == 26 {
                    Instruction::OR(b1, b2)
                } else {
                    Instruction::XOR(b1, b2)
                }, pos + 3))
            }
        } else {
            Some((Instruction::NOP(), pos + 1))
        }
    }
}

fn read_le16(code: &Vec<u8>, pos: usize) -> (r: u16)
    requires
        pos + 2 <= code@.len(),
    ensures
        r == le16(code@[pos as int], code@[pos + 1]),
{
    let n = code.len();
    code[pos] as u16 + code[pos + 1] as u16 * 0x100
}

fn read_le32(code: &Vec<u8>, pos: usize) -> (r: u32)
    requires
        pos + 4 <= code@.len(),
    ensures
        r == le32(code@[pos as int], code@[pos + 1], code@[pos + 2], code@[pos + 3]),
{
    let n = code.len();
    code[pos] as u32 + code[pos + 1] as u32 * 0x100 + code[pos + 2] as u32 * 0x1_0000 + code[pos
        + 3] as u32 * 0x100_0000
}

fn read_le64(code: &Vec<u8>, pos: usize) -> (r: u64)
    requires
        pos + 8 <= code@.len(),
    ensures
        r == le64(
            code@[pos as int],
            code@[pos + 1],
            code@[pos + 2],
            code@[pos + 3],
            code@[pos + 4],
            code@[pos + 5],
            code@[pos + 6],
            code@[pos + 7],
        ),
{
    let n = code.len();
    code[pos] as u64 + code[pos + 1] as u64 * 0x100 + code[pos + 2] as u64 * 0x1_0000 + code[pos
        + 3] as u64 * 0x100_0000 + code[pos + 4] as u64 * 0x1_0000_0000 + code[pos + 5] as u64
        * 0x100_0000_0000 + code[pos + 6] as u64 * 0x1_0000_0000_0000 + code[pos + 7] as u64
        * 0x100_0000_0000_0000
}

/// Decodes the immediate whose type tag sits at `pos`, returning it together
/// with the position one past its last byte.
pub fn decode_immediate_at(code: &Vec<u8>, pos: usize) -> (r: Result<(Immediate, usize), VmError>)
    ensures
        match spec_decode_immediate(code@, pos as int) {
            Some(p) => r matches Ok(q) && q.0 == p.0 && q.1 == p.1 && pos < q.1 <= code@.len(),
            None => r == Err::<(Immediate, usize), VmError>(VmError::TruncatedCode),
        },
{
    if pos >= code.len() {
        return Err(VmError::TruncatedCode);
    }
    let tag = code[pos];
    if tag > 9 {
        return Ok((Immediate::Absent, pos + 1));
    }
    let width: usize = if tag == 0 || tag == 1 {
        1
    } else if tag == 2 || tag == 3 {
        2
    } else if tag == 4 || tag == 5 || tag == 8 {
        4
    } else {
        8
    };
    if code.len() - (pos + 1) < width {
        return Err(VmError::TruncatedCode);
    }
    let v = match tag {
        0 => Immediate::U8(code[pos + 1]),
        1 => Immediate::I8(code[pos + 1] as i8),
        2 => Immediate::U16(read_le16(code, pos + 1)),
        3 => Immediate::I16(read_le16(code, pos + 1) as i16),
        4 => Immediate::U32(read_le32(code, pos + 1)),
        5 => Immediate::I32(read_le32(code, pos + 1) as i32),
        6 => Immediate::U64(read_le64(code, pos + 1)),
        7 => Immediate::I64(read_le64(code, pos + 1) as i64),
        8 => Immediate::F32(read_le32(code, pos + 1)),
        _ => Immediate::F64(read_le64(code, pos + 1)),
    };
    Ok((v, pos + 1 + width))
}

/// Decodes the instruction whose opcode sits at `pos`, returning it together
/// with the position one past its last consumed byte.
pub fn decode_at(code: &Vec<u8>, pos: usize) -> (r: Result<(Instruction, usize), VmError>)
    ensures
        match spec_decode(code@, pos as int) {
            Some(p) => r matches Ok(q) && q.0 == p.0 && q.1 == p.1 && pos < q.1 <= code@.len(),
            None => r == Err::<(Instruction, usize), VmError>(VmError::TruncatedCode),
        },
{
    if pos >= code.len() {
        return Err(VmError::TruncatedCode);
    }
    match code[pos] {
        0 => Ok((Instruction::NOP(), pos + 1)),
        21 => Ok((Instruction::RET(), pos + 1)),
        22 => Ok((Instruction::HALT(), pos + 1)),
        17 => match decode_immediate_at(code, pos + 1) {
            Ok((v, end)) => Ok((Instruction::VPUSH(v), end)),
            Err(e) => Err(e),
        },
        1 => {
            if pos + 1 >= code.len() {
                return Err(VmError::TruncatedCode);
            }
            let b = code[pos + 1] as usize;
            match decode_immediate_at(code, pos + 2) {
                Ok((v, end)) => Ok((Instruction::MOV(b, v), end)),
                Err(e) => Err(e),
            }
        },
        9 => {
            if pos + 1 >= code.len() {
                return Err(VmError::TruncatedCode);
            }
            let b = code[pos + 1] as usize;
            match decode_immediate_at(code, pos + 2) {
                Ok((v, end)) => Ok((Instruction::VSTORE(b, v), end)),
                Err(e) => Err(e),
            }
        },
        28 => {
            if pos + 1 >= code.len() {
                return Err(VmError::TruncatedCode);
            }
            let b = code[pos + 1] as usize;
            match decode_immediate_at(code, pos + 2) {
                Ok((v, end)) => Ok((Instruction::SHR(b, v), end)),
                Err(e) => Err(e),
            }
        },
        29 => {
            if pos + 1 >= code.len() {
                return Err(VmError::TruncatedCode);
            }
            let b = code[pos + 1] as usize;
            match decode_immediate_at(code, pos + 2) {
                Ok((v, end)) => Ok((Instruction::SHL(b, v), end)),
                Err(e) => Err(e),
            }
        },
        3 => {
            if code.len() - pos < 2 {
                return Err(VmError::TruncatedCode);
            }
            Ok((Instruction::JMP(code[pos + 1] as usize), pos + 2))
        },
        4 => {
            if code.len() - pos < 2 {
                return Err(VmError::TruncatedCode);
            }
            Ok((Instruction::JE(code[pos + 1] as usize), pos + 2))
        },
        5 => {
            if code.len() - pos < 2 {
                return Err(VmError::TruncatedCode);
            }
            Ok((Instruction::JNE(code[pos + 1] as usize), pos + 2))
        },
        7 => {
            if code.len() - pos < 2 {
                return Err(VmError::TruncatedCode);
            }
            Ok((Instruction::PRINTR(code[pos + 1] as usize), pos + 2))
        },
        8 => {
            if code.len() - pos < 2 {
                return Err(VmError::TruncatedCode);
            }
            Ok((Instruction::PRINTV(code[pos + 1] as usize), pos + 2))
        },
        10 => {
            if code.len() - pos < 2 {
                return Err(VmError::TruncatedCode);
            }
            Ok((Instruction::VLOAD(code[pos + 1] as usize), pos + 2))
        },
        18 => {
            if code.len() - pos < 2 {
                return Err(VmError::TruncatedCode);
            }
            Ok((Instruction::VPUSHR(code[pos + 1] as usize), pos + 2))
        },
        19 => {
            if code.len() - pos < 2 {
                return Err(VmError::TruncatedCode);
            }
            Ok((Instruction::VPOP(code[pos + 1] as usize), pos + 2))
        },
        20 => {
            if code.len() - pos < 2 {
                return Err(VmError::TruncatedCode);
            }
            Ok((Instruction::CALL(code[pos + 1] as usize), pos + 2))
        },
        23 => {
            if code.len() - pos < 2 {
                return Err(VmError::TruncatedCode);
            }
            Ok((Instruction::JG(code[pos + 1] as usize), pos + 2))
        },
        24 => {
            if code.len() - pos < 2 {
                return Err(VmError::TruncatedCode);
            }
            Ok((Instruction::JL(code[pos + 1] as usize), pos + 2))
        },
        2 => {
            if code.len() - pos < 3 {
                return Err(VmError::TruncatedCode);
            }
            Ok((Instruction::MOVR(code[pos + 1] as usize, code[pos + 2] as usize), pos + 3))
        },
        6 => {
            if code.len() - pos < 3 {
                return Err(VmError::TruncatedCode);
            }
            Ok((Instruction::CMP(code[pos + 1] as usize, code[pos + 2] as usize), pos + 3))
        },
        11 => {
            if code.len() - pos < 3 {
                return Err(VmError::TruncatedCode);
            }
            Ok((Instruction::ADD(code[pos + 1] as usize, code[pos + 2] as usize), pos + 3))
        },
        12 => {
            if code.len() - pos < 3 {
                return Err(VmError::TruncatedCode);
            }
            Ok((Instruction::SUB(code[pos + 1] as usize, code[pos + 2] as usize), pos + 3))
        },
        13 => {
            if code.len() - pos < 3 {
                return Err(VmError::TruncatedCode);
            }
            Ok((Instruction::MUL(code[pos + 1] as usize, code[pos + 2] as usize), pos + 3))
        },
        14 => {
            if code.len() - pos < 3 {
                return Err(VmError::TruncatedCode);
            }
            Ok((Instruction::DIV(code[pos + 1] as usize, code[pos + 2] as usize), pos + 3))
        },
        15 => {
            if code.len() - pos < 3 {
                return Err(VmError::TruncatedCode);
            }
            Ok((Instruction::VSTORER(code[pos + 1] as usize, code[pos + 2] as usize), pos + 3))
        },
        16 => {
            if code.len() - pos < 3 {
                return Err(VmError::TruncatedCode);
            }
            Ok((Instruction::VLOADR(code[pos + 1] as usize, code[pos + 2] as usize), pos + 3))
        },
        25 => {
            if code.len() - pos < 3 {
                return Err(VmError::TruncatedCode);
            }
            Ok((Instruction::AND(code[pos + 1] as usize, code[pos + 2] as usize), pos + 3))
        },
        26 => {
            if code.len() - pos < 3 {
                return Err(VmError::TruncatedCode);
            }
            Ok((Instruction::OR(code[pos + 1] as usize, code[pos + 2] as usize), pos + 3))
        },
        27 => {
            if code.len() - pos < 3 {
                return Err(VmError::TruncatedCode);
            }
            Ok((Instruction::XOR(code[pos + 1] as usize, code[pos + 2] as usize), pos + 3))
        },
        _ => Ok((Instruction::NOP(), pos + 1)),
    }
}

/// The byte encoding of an immediate operand: its type tag, then the
/// little-endian bytes of its value. The absent value has no encoding of its
/// own (it is what an unknown tag decodes to), so it is mapped to an empty
/// sequence here.
pub open spec fn spec_encode_immediate(v: Immediate) -> Seq<u8> {
    match v {
        Immediate::Absent => Seq::empty(),
        Immediate::U8(x) => seq![0u8, x],
        Immediate::I8(x) => seq![1u8, x as u8],
        Immediate::U16(x) => seq![2u8] + le_bytes16(x),
        Immediate::I16(x) => seq![3u8] + le_bytes16(x as u16),
        Immediate::U32(x) => seq![4u8] + le_bytes32(x),
        Immediate::I32(x) => seq![5u8] + le_bytes32(x as u32),
        Immediate::U64(x) => seq![6u8] + le_bytes64(x),
        Immediate::I64(x) => seq![7u8] + le_bytes64(x as u64),
        Immediate::F32(x) => seq![8u8] + le_bytes32(x),
        Immediate::F64(x) => seq![9u8] + le_bytes64(x),
    }
}

/// The two little-endian bytes of a 16-bit value.
pub open spec fn le_bytes16(x: u16) -> Seq<u8> {
    seq![(x % 0x100) as u8, (x / 0x100) as u8]
}

/// The four little-endian bytes of a 32-bit value.
pub open spec fn le_bytes32(x: u32) -> Seq<u8> {
    seq![
        (x % 0x100) as u8,
        ((x / 0x100) % 0x100) as u8,
        ((x / 0x1_0000) % 0x100) as u8,
        ((x / 0x100_0000) % 0x100) as u8,
    ]
}

/// The eight little-endian bytes of a 64-bit value.
pub open spec fn le_bytes64(x: u64) -> Seq<u8> {
    seq![
        (x % 0x100) as u8,
        ((x / 0x100) % 0x100) as u8,
        ((x / 0x1_0000) % 0x100) as u8,
        ((x / 0x100_0000) % 0x100) as u8,
        ((x / 0x1_0000_0000) % 0x100) as u8,
        ((x / 0x100_0000_0000) % 0x100) as u8,
        ((x / 0x1_0000_0000_0000) % 0x100) as u8,
        ((x / 0x100_0000_0000_0000) % 0x100) as u8,
    ]
}

} // verus!
