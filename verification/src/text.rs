//! Rendering of trace lines.
//!
//! The machine's observable output is a sequence of text lines: one line for
//! every executed instruction, and one line for every value printed by
//! `PRINTR` or `PRINTV`. The exact character content of each line is given
//! by spec functions here, and the executable rendering is proved to produce
//! it. A floating value is rendered as its decimal bit pattern, since the
//! library holds such values as bit patterns.

use vstd::prelude::*;

use crate::decode::Instruction;
use crate::value::Immediate;

verus! {

/// The decimal digit character for `d` in 0-9.
pub open spec fn digit_char(d: nat) -> char {
    if d == 0 {
        '0'
    } else if d == 1 {
        '1'
    } else if d == 2 {
        '2'
    } else if d == 3 {
        '3'
    } else if d == 4 {
        '4'
    } else if d == 5 {
        '5'
    } else if d == 6 {
        '6'
    } else if d == 7 {
        '7'
    } else if d == 8 {
        '8'
    } else {
        '9'
    }
}

/// The decimal rendering of a natural number, most significant digit first.
pub open spec fn dec_of(n: nat) -> Seq<char>
    decreases n,
{
    if n < 10 {
        seq![digit_char(n)]
    } else {
        dec_of(n / 10) + seq![digit_char(n % 10)]
    }
}

/// The decimal rendering of an integer, with a leading minus sign when
/// negative.
pub open spec fn sdec_of(v: int) -> Seq<char> {
    if v < 0 {
        "-"@ + dec_of((-v) as nat)
    } else {
        dec_of(v as nat)
    }
}

fn digit_str(d: u64) -> (r: &'static str)
    requires
        d < 10,
    ensures
        r@ == seq![digit_char(d as nat)],
{
    proof {
        reveal_strlit("0");
        reveal_strlit("1");
        reveal_strlit("2");
        reveal_strlit("3");
        reveal_strlit("4");
        reveal_strlit("5");
        reveal_strlit("6");
        reveal_strlit("7");
        reveal_strlit("8");
        reveal_strlit("9");
    }
    match d {
        0 => "0",
        1 => "1",
        2 => "2",
        3 => "3",
        4 => "4",
        5 => "5",
        6 => "6",
        7 => "7",
        8 => "8",
        _ => "9",
    }
}

/// Appends the decimal rendering of `n`.
fn push_dec(s: &mut String, n: u64)
    ensures
        final(s)@ == old(s)@ + dec_of(n as nat),
    decreases n,
{
    if n >= 10 {
        push_dec(s, n / 10);
    }
    let d = digit_str(n % 10);
    s.append(d);
    proof {
        assert(s@ =~= old(s)@ + dec_of(n as nat));
    }
}

/// Appends the decimal rendering of `v`, sign included.
fn push_sdec(s: &mut String, v: i64)
    ensures
        final(s)@ == old(s)@ + sdec_of(v as int),
{
    if v >= 0 {
        push_dec(s, v as u64);
    } else {
        s.append("-");
        let m: u64 = (-(v as i128)) as u64;
        push_dec(s, m);
        proof {
            assert(s@ =~= old(s)@ + sdec_of(v as int));
        }
    }
}

/// The text of one machine value: its variant name around its decimal value.
pub open spec fn imm_text(v: Immediate) -> Seq<char> {
    match v {
        Immediate::Absent => "Absent"@,
        Immediate::U8(x) => "U8("@ + dec_of(x as nat) + ")"@,
        Immediate::I8(x) => "I8("@ + sdec_of(x as int) + ")"@,
        Immediate::U16(x) => "U16("@ + dec_of(x as nat) + ")"@,
        Immediate::I16(x) => "I16("@ + sdec_of(x as int) + ")"@,
        Immediate::U32(x) => "U32("@ + dec_of(x as nat) + ")"@,
        Immediate::I32(x) => "I32("@ + sdec_of(x as int) + ")"@,
        Immediate::U64(x) => "U64("@ + dec_of(x as nat) + ")"@,
        Immediate::I64(x) => "I64("@ + sdec_of(x as int) + ")"@,
        Immediate::F32(x) => "F32("@ + dec_of(x as nat) + ")"@,
        Immediate::F64(x) => "F64("@ + dec_of(x as nat) + ")"@,
    }
}

/// Appends the text of one machine value.
fn push_immediate(s: &mut String, v: Immediate)
    ensures
        final(s)@ == old(s)@ + imm_text(v),
{
    match v {
        Immediate::Absent => s.append("Absent"),
        Immediate::U8(x) => {
            s.append("U8(");
            push_dec(s, x as u64);
            s.append(")");
        },
        Immediate::I8(x) => {
            s.append("I8(");
            push_sdec(s, x as i64);
            s.append(")");
        },
        Immediate::U16(x) => {
            s.append("U16(");
            push_dec(s, x as u64);
            s.append(")");
        },
        Immediate::I16(x) => {
            s.append("I16(");
            push_sdec(s, x as i64);
            s.append(")");
        },
        Immediate::U32(x) => {
            s.append("U32(");
            push_dec(s, x as u64);
            s.append(")");
        },
        Immediate::I32(x) => {
            s.append("I32(");
            push_sdec(s, x as i64);
            s.append(")");
        },
        Immediate::U64(x) => {
            s.append("U64(");
            push_dec(s, x);
            s.append(")");
        },
        Immediate::I64(x) => {
            s.append("I64(");
            push_sdec(s, x);
            s.append(")");
        },
        Immediate::F32(x) => {
            s.append("F32(");
            push_dec(s, x as u64);
            s.append(")");
        },
        Immediate::F64(x) => {
            s.append("F64(");
            push_dec(s, x);
            s.append(")");
        },
    }
    proof {
        assert(s@ =~= old(s)@ + imm_text(v));
    }
}

/// The text of one instruction: its mnemonic around its operands.
pub open spec fn instr_text(i: Instruction) -> Seq<char> {
    match i {
        Instruction::NOP() => "NOP"@,
        Instruction::RET() => "RET"@,
        Instruction::HALT() => "HALT"@,
        Instruction::JMP(a) => "JMP("@ + dec_of(a as nat) + ")"@,
        Instruction::JE(a) => "JE("@ + dec_of(a as nat) + ")"@,
        Instruction::JNE(a) => "JNE("@ + dec_of(a as nat) + ")"@,
        Instruction::JG(a) => "JG("@ + dec_of(a as nat) + ")"@,
        Instruction::JL(a) => "JL("@ + dec_of(a as nat) + ")"@,
        Instruction::PRINTR(a) => "PRINTR("@ + dec_of(a as nat) + ")"@,
        Instruction::PRINTV(a) => "PRINTV("@ + dec_of(a as nat) + ")"@,
        Instruction::VLOAD(a) => "VLOAD("@ + dec_of(a as nat) + ")"@,
        Instruction::VPUSHR(a) => "VPUSHR("@ + dec_of(a as nat) + ")"@,
        Instruction::VPOP(a) => "VPOP("@ + dec_of(a as nat) + ")"@,
        Instruction::CALL(a) => "CALL("@ + dec_of(a as nat) + ")"@,
        Instruction::MOVR(a, b) => "MOVR("@ + dec_of(a as nat) + ", "@ + dec_of(b as nat) + ")"@,
        Instruction::CMP(a, b) => "CMP("@ + dec_of(a as nat) + ", "@ + dec_of(b as nat) + ")"@,
        Instruction::VSTORER(a, b) => "VSTORER("@ + dec_of(a as nat) + ", "@ + dec_of(b as nat) + ")"@,
        Instruction::VLOADR(a, b) => "VLOADR("@ + dec_of(a as nat) + ", "@ + dec_of(b as nat) + ")"@,
        Instruction::ADD(a, b) => "ADD("@ + dec_of(a as nat) + ", "@ + dec_of(b as nat) + ")"@,
        Instruction::SUB(a, b) => "SUB("@ + dec_of(a as nat) + ", "@ + dec_of(b as nat) + ")"@,
        Instruction::MUL(a, b) => "MUL("@ + dec_of(a as nat) + ", "@ + dec_of(b as nat) + ")"@,
        Instruction::DIV(a, b) => "DIV("@ + dec_of(a as nat) + ", "@ + dec_of(b as nat) + ")"@,
        Instruction::AND(a, b) => "AND("@ + dec_of(a as nat) + ", "@ + dec_of(b as nat) + ")"@,
        Instruction::OR(a, b) => "OR("@ + dec_of(a as nat) + ", "@ + dec_of(b as nat) + ")"@,
        Instruction::XOR(a, b) => "XOR("@ + dec_of(a as nat) + ", "@ + dec_of(b as nat) + ")"@,
        Instruction::MOV(a, v) => "MOV("@ + dec_of(a as nat) + ", "@ + imm_text(v) + ")"@,
        Instruction::VSTORE(a, v) => "VSTORE("@ + dec_of(a as nat) + ", "@ + imm_text(v) + ")"@,
        Instruction::SHR(a, v) => "SHR("@ + dec_of(a as nat) + ", "@ + imm_text(v) + ")"@,
        Instruction::SHL(a, v) => "SHL("@ + dec_of(a as nat) + ", "@ + imm_text(v) + ")"@,
        Instruction::VPUSH(v) => "VPUSH("@ + imm_text(v) + ")"@,
    }
}

/// Appends the text of one instruction.
fn push_instruction(s: &mut String, i: Instruction)
    ensures
        final(s)@ == old(s)@ + instr_text(i),
{
    match i {
        Instruction::NOP() => s.append("NOP"),
        Instruction::RET() => s.append("RET"),
        Instruction::HALT() => s.append("HALT"),
        Instruction::JMP(a) => {
            s.append("JMP(");
            push_dec(s, a as u64);
            s.append(")");
        },
        Instruction::JE(a) => {
            s.append("JE(");
            push_dec(s, a as u64);
            s.append(")");
        },
        Instruction::JNE(a) => {
            s.append("JNE(");
            push_dec(s, a as u64);
            s.append(")");
        },
        Instruction::JG(a) => {
            s.append("JG(");
            push_dec(s, a as u64);
            s.append(")");
        },
        Instruction::JL(a) => {
            s.append("JL(");
            push_dec(s, a as u64);
            s.append(")");
        },
        Instruction::PRINTR(a) => {
            s.append("PRINTR(");
            push_dec(s, a as u64);
            s.append(")");
        },
        Instruction::PRINTV(a) => {
            s.append("PRINTV(");
            push_dec(s, a as u64);
            s.append(")");
        },
        Instruction::VLOAD(a) => {
            s.append("VLOAD(");
            push_dec(s, a as u64);
            s.append(")");
        },
        Instruction::VPUSHR(a) => {
            s.append("VPUSHR(");
            push_dec(s, a as u64);
            s.append(")");
        },
        Instruction::VPOP(a) => {
            s.append("VPOP(");
            push_dec(s, a as u64);
            s.append(")");
        },
        Instruction::CALL(a) => {
            s.append("CALL(");
            push_dec(s, a as u64);
            s.append(")");
        },
        Instruction::MOVR(a, b) => {
            s.append("MOVR(");
            push_dec(s, a as u64);
            s.append(", ");
            push_dec(s, b as u64);
            s.append(")");
        },
        Instruction::CMP(a, b) => {
            s.append("CMP(");
            push_dec(s, a as u64);
            s.append(", ");
            push_dec(s, b as u64);
            s.append(")");
        },
        Instruction::VSTORER(a, b) => {
            s.append("VSTORER(");
            push_dec(s, a as u64);
            s.append(", ");
            push_dec(s, b as u64);
            s.append(")");
        },
        Instruction::VLOADR(a, b) => {
            s.append("VLOADR(");
            push_dec(s, a as u64);
            s.append(", ");
            push_dec(s, b as u64);
            s.append(")");
        },
        Instruction::ADD(a, b) => {
            s.append("ADD(");
            push_dec(s, a as u64);
            s.append(", ");
            push_dec(s, b as u64);
            s.append(")");
        },
        Instruction::SUB(a, b) => {
            s.append("SUB(");
            push_dec(s, a as u64);
            s.append(", ");
            push_dec(s, b as u64);
            s.append(")");
        },
        Instruction::MUL(a, b) => {
            s.append("MUL(");
            push_dec(s, a as u64);
            s.append(", ");
            push_dec(s, b as u64);
            s.append(")");
        },
        Instruction::DIV(a, b) => {
            s.append("DIV(");
            push_dec(s, a as u64);
            s.append(", ");
            push_dec(s, b as u64);
            s.append(")");
        },
        Instruction::AND(a, b) => {
            s.append("AND(");
            push_dec(s, a as u64);
            s.append(", ");
            push_dec(s, b as u64);
            s.append(")");
        },
        Instruction::OR(a, b) => {
            s.append("OR(");
            push_dec(s, a as u64);
            s.append(", ");
            push_dec(s, b as u64);
            s.append(")");
        },
        Instruction::XOR(a, b) => {
            s.append("XOR(");
            push_dec(s, a as u64);
            s.append(", ");
            push_dec(s, b as u64);
            s.append(")");
        },
        Instruction::MOV(a, v) => {
            s.append("MOV(");
            push_dec(s, a as u64);
            s.append(", ");
            push_immediate(s, v);
            s.append(")");
        },
        Instruction::VSTORE(a, v) => {
            s.append("VSTORE(");
            push_dec(s, a as u64);
            s.append(", ");
            push_immediate(s, v);
            s.append(")");
        },
        Instruction::SHR(a, v) => {
            s.append("SHR(");
            push_dec(s, a as u64);
            s.append(", ");
            push_immediate(s, v);
            s.append(")");
        },
        Instruction::SHL(a, v) => {
            s.append("SHL(");
            push_dec(s, a as u64);
            s.append(", ");
            push_immediate(s, v);
            s.append(")");
        },
        Instruction::VPUSH(v) => {
            s.append("VPUSH(");
            push_immediate(s, v);
            s.append(")");
        },
    }
    proof {
        assert(s@ =~= old(s)@ + instr_text(i));
    }
}

/// The trace line written as an instruction starts to execute: the
/// instruction's text and the byte position one past the instruction (the
/// pointer stands on the instruction's last consumed byte, and the line
/// shows the next position).
pub open spec fn exec_line_text(i: Instruction, ip: nat) -> Seq<char> {
    "Executing: "@ + instr_text(i) + "  current ip: "@ + dec_of(ip + 1)
}

/// The trace line written when a value is printed.
pub open spec fn print_line_text(v: Immediate) -> Seq<char> {
    "Printing: "@ + imm_text(v)
}

/// Renders the trace line for an instruction starting to execute.
pub fn render_exec_line(i: Instruction, ip: usize) -> (r: String)
    requires
        ip < usize::MAX,
    ensures
        r@ == exec_line_text(i, ip as nat),
{
    let mut s = String::new();
    s.append("Executing: ");
    push_instruction(&mut s, i);
    s.append("  current ip: ");
    push_dec(&mut s, ip as u64 + 1);
    proof {
        assert(s@ =~= exec_line_text(i, ip as nat));
    }
    s
}

/// Renders the trace line for a printed value.
pub fn render_print_line(v: Immediate) -> (r: String)
    ensures
        r@ == print_line_text(v),
{
    let mut s = String::new();
    s.append("Printing: ");
    push_immediate(&mut s, v);
    proof {
        assert(s@ =~= print_line_text(v));
    }
    s
}

} // verus!
