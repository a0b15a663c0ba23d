//! The execution engine and the dispatch loop.
//!
//! `VirtualMachine` owns all mutable machine state. Its abstract view is a
//! `Model`, and every public operation is specified against mathematical
//! transition functions on that model: `spec_execute` gives the meaning of
//! one instruction, `spec_iter` the meaning of one fetch-decode-execute
//! iteration of the dispatch loop, and `runs_to` chains iterations. The
//! dispatch loop `cpu` is proved to follow `spec_iter` from its starting
//! state until the machine halts, runs off the end of the code, pauses for a
//! floating-point operation, or aborts on the first failing instruction.
//!
//! Floating-point arithmetic is the one thing the engine does not compute
//! itself: when both operands of an arithmetic instruction are floating
//! values, the run pauses and hands the operand bit patterns out as a
//! `FloatRequest`; the embedding caller computes the IEEE 754 result and
//! hands the bits back through `resume_float`, which pushes them and
//! continues the run. Every other instruction is executed, and verified,
//! entirely inside the library.

use vstd::prelude::*;

use crate::decode::decode_at;
use crate::decode::decode_immediate_at;
use crate::decode::spec_decode;
use crate::decode::spec_decode_immediate;
use crate::decode::Instruction;
use crate::text::exec_line_text;
use crate::text::print_line_text;
use crate::text::render_exec_line;
use crate::text::render_print_line;
use crate::value::apply_binop;
use crate::value::imm_eq;
use crate::value::imm_gt;
use crate::value::immediate_eq;
use crate::value::immediate_gt;
use crate::value::is_arith;
use crate::value::spec_apply_binop;
use crate::value::Address;
use crate::value::BinOp;
use crate::value::Immediate;
use crate::value::Register;
use crate::value::VmError;

verus! {

/// The width of a paused floating-point operation.
#[derive(Debug, Copy, Clone, PartialEq, Eq, Structural)]
pub enum FloatWidth {
    /// IEEE 754 binary32.
    Single,
    /// IEEE 754 binary64.
    Double,
}

/// A floating-point operation the machine asks its embedding caller to
/// compute: the operation, the width, and the two operand bit patterns
/// (zero-extended to 64 bits for `Single`). The caller answers through
/// `VirtualMachine::resume_float` with the result's bit pattern.
#[derive(Debug, Copy, Clone, PartialEq, Eq, Structural)]
pub struct FloatRequest {
    pub op: BinOp,
    pub width: FloatWidth,
    pub lhs: u64,
    pub rhs: u64,
}

/// How executing one instruction ended.
#[derive(Debug, Copy, Clone, PartialEq, Eq, Structural)]
pub enum ExecStatus {
    /// The instruction completed.
    Done,
    /// The instruction paused for a floating-point operation.
    AwaitFloat(FloatRequest),
    /// The instruction failed; the run aborts.
    Fail(VmError),
}

/// How a run (or a resumed run) ended.
#[derive(Debug, Copy, Clone, PartialEq, Eq, Structural)]
pub enum RunOutcome {
    /// Clean termination: `HALT` executed, or the instruction pointer ran
    /// off the end of the code buffer.
    Halted,
    /// The run aborted on the first failing instruction, whose partial
    /// effects remain in place.
    Aborted(VmError),
    /// The run paused for a floating-point operation; answer it through
    /// `resume_float`.
    NeedsFloat(FloatRequest),
    /// The machine was already mid-run, so the call did nothing.
    AlreadyRunning,
    /// The step budget ran out before the machine stopped; the state is
    /// mid-run, and `resume` continues it.
    StillRunning,
}

/// The abstract state of the machine: the mathematical value of every
/// component of `VirtualMachine`.
#[verifier::ext_equal]
pub struct Model {
    /// Byte offset into the code buffer; during decoding it moves to the
    /// last consumed byte of the current instruction, and the dispatch loop
    /// advances it once more after every completed instruction.
    pub ip: nat,
    /// The `equal` condition flag, written by `CMP`.
    pub flag_eq: bool,
    /// The `greater` condition flag, written by `CMP`.
    pub flag_gt: bool,
    /// The eight registers.
    pub reg: Seq<Immediate>,
    /// The program bytes.
    pub code: Seq<u8>,
    /// The operand stack, last element on top.
    pub stack: Seq<Immediate>,
    /// The fixed-capacity data segment.
    pub data: Seq<Immediate>,
    /// The running flag: set while a run is in progress, cleared by `HALT`.
    pub is_executing: bool,
    /// The floating-point operation the machine is paused on, if any.
    pub pending: Option<FloatRequest>,
    /// The trace lines emitted so far.
    pub trace: Seq<Seq<char>>,
}

impl Model {
    /// The machine's structural invariant: the register file has exactly
    /// eight slots.
    pub open spec fn wf(self) -> bool {
        self.reg.len() == 8
    }
}

/// The virtual machine: registers, stack, data segment, flags, instruction
/// pointer, code buffer, running flag, paused request, and trace.
pub struct VirtualMachine {
    ip: usize,
    flag_eq: bool,
    flag_gt: bool,
    reg: Vec<Immediate>,
    code: Vec<u8>,
    stack: Vec<Immediate>,
    data: Vec<Immediate>,
    is_executing: bool,
    pending: Option<FloatRequest>,
    trace: Vec<String>,
}

impl View for VirtualMachine {
    type V = Model;

    closed spec fn view(&self) -> Model {
        Model {
            ip: self.ip as nat,
            flag_eq: self.flag_eq,
            flag_gt: self.flag_gt,
            reg: self.reg@,
            code: self.code@,
            stack: self.stack@,
            data: self.data@,
            is_executing: self.is_executing,
            pending: self.pending,
            trace: self.trace@.map_values(|s: String| s@),
        }
    }
}

/// The model with one more trace line.
pub open spec fn with_trace(m: Model, line: Seq<char>) -> Model {
    Model { trace: m.trace.push(line), ..m }
}

/// The meaning of setting the instruction pointer from a register: the
/// register must hold a `U8` or `U16` value; any other variant is an invalid
/// jump target.
pub open spec fn spec_jump(m: Model, r: Register) -> (Model, ExecStatus) {
    if r >= 8 {
        (m, ExecStatus::Fail(VmError::InvalidRegister))
    } else {
        match m.reg[r as int] {
            Immediate::U8(v) => (Model { ip: v as nat, ..m }, ExecStatus::Done),
            Immediate::U16(v) => (Model { ip: v as nat, ..m }, ExecStatus::Done),
            _ => (m, ExecStatus::Fail(VmError::InvalidJumpTarget)),
        }
    }
}

/// The meaning of a binary operation on two operand values: floating
/// arithmetic pauses for the embedding caller; everything else follows the
/// value model, pushing the result on success.
pub open spec fn spec_binop_values(m: Model, op: BinOp, v1: Immediate, v2: Immediate) -> (
    Model,
    ExecStatus,
) {
    match (v1, v2) {
        (Immediate::F32(x), Immediate::F32(y)) => {
            if is_arith(op) {
                let req = FloatRequest {
                    op,
                    width: FloatWidth::Single,
                    lhs: x as u64,
                    rhs: y as u64,
                };
                (Model { pending: Some(req), ..m }, ExecStatus::AwaitFloat(req))
            } else {
                (m, ExecStatus::Fail(VmError::UnsupportedType))
            }
        },
        (Immediate::F64(x), Immediate::F64(y)) => {
            if is_arith(op) {
                let req = FloatRequest { op, width: FloatWidth::Double, lhs: x, rhs: y };
                (Model { pending: Some(req), ..m }, ExecStatus::AwaitFloat(req))
            } else {
                (m, ExecStatus::Fail(VmError::UnsupportedType))
            }
        },
        _ => match spec_apply_binop(op, v1, v2) {
            Ok(res) => (Model { stack: m.stack.push(res), ..m }, ExecStatus::Done),
            Err(e) => (m, ExecStatus::Fail(e)),
        },
    }
}

/// The meaning of a register-register binary operation instruction.
pub open spec fn spec_binop_step(m: Model, op: BinOp, a: Register, b: Register) -> (
    Model,
    ExecStatus,
) {
    if a >= 8 || b >= 8 {
        (m, ExecStatus::Fail(VmError::InvalidRegister))
    } else {
        spec_binop_values(m, op, m.reg[a as int], m.reg[b as int])
    }
}

/// The meaning of one instruction applied to the machine state: the state
/// after it, and whether it completed, paused, or failed. A trace line is
/// appended before anything else, as the machine announces every
/// instruction it starts to execute.
pub open spec fn spec_execute(m: Model, instr: Instruction) -> (Model, ExecStatus) {
    let m1 = with_trace(m, exec_line_text(instr, m.ip));
    match instr {
        Instruction::NOP() => (m1, ExecStatus::Done),
        Instruction::MOV(r, v) => {
            if r < 8 {
                (Model { reg: m1.reg.update(r as int, v), ..m1 }, ExecStatus::Done)
            } else {
                (m1, ExecStatus::Fail(VmError::InvalidRegister))
            }
        },
        Instruction::MOVR(d, s) => {
            if d < 8 && s < 8 {
                (Model { reg: m1.reg.update(d as int, m1.reg[s as int]), ..m1 }, ExecStatus::Done)
            } else {
                (m1, ExecStatus::Fail(VmError::InvalidRegister))
            }
        },
        Instruction::JMP(r) => spec_jump(m1, r),
        Instruction::JE(r) => if m1.flag_eq {
            spec_jump(m1, r)
        } else {
            (m1, ExecStatus::Done)
        },
        Instruction::JNE(r) => if !m1.flag_eq {
            spec_jump(m1, r)
        } else {
            (m1, ExecStatus::Done)
        },
        Instruction::JG(r) => if m1.flag_gt {
            spec_jump(m1, r)
        } else {
            (m1, ExecStatus::Done)
        },
        Instruction::JL(r) => if !m1.flag_gt {
            spec_jump(m1, r)
        } else {
            (m1, ExecStatus::Done)
        },
        Instruction::CMP(a, b) => {
            if a < 8 && b < 8 {
                (
                    Model {
                        flag_eq: imm_eq(m1.reg[a as int], m1.reg[b as int]),
                        flag_gt: imm_gt(m1.reg[a as int], m1.reg[b as int]),
                        ..m1
                    },
                    ExecStatus::Done,
                )
            } else {
                (m1, ExecStatus::Fail(VmError::InvalidRegister))
            }
        },
        Instruction::PRINTR(r) => {
            if r < 8 {
                (with_trace(m1, print_line_text(m1.reg[r as int])), ExecStatus::Done)
            } else {
                (m1, ExecStatus::Fail(VmError::InvalidRegister))
            }
        },
        Instruction::PRINTV(a) => {
            if a < m1.data.len() {
                (with_trace(m1, print_line_text(m1.data[a as int])), ExecStatus::Done)
            } else {
                (m1, ExecStatus::Fail(VmError::InvalidAddress))
            }
        },
        Instruction::VSTORE(a, v) => {
            if a < m1.data.len() {
                (Model { data: m1.data.update(a as int, v), ..m1 }, ExecStatus::Done)
            } else {
                (m1, ExecStatus::Fail(VmError::InvalidAddress))
            }
        },
        Instruction::VLOAD(a) => {
            if a < m1.data.len() {
                (Model { stack: m1.stack.push(m1.data[a as int]), ..m1 }, ExecStatus::Done)
            } else {
                (m1, ExecStatus::Fail(VmError::InvalidAddress))
            }
        },
        Instruction::VSTORER(a, r) => {
            if r >= 8 {
                (m1, ExecStatus::Fail(VmError::InvalidRegister))
            } else if a >= m1.data.len() {
                (m1, ExecStatus::Fail(VmError::InvalidAddress))
            } else {
                (Model { data: m1.data.update(a as int, m1.reg[r as int]), ..m1 }, ExecStatus::Done)
            }
        },
        Instruction::VLOADR(r, a) => {
            if a >= m1.data.len() {
                (m1, ExecStatus::Fail(VmError::InvalidAddress))
            } else if r >= 8 {
                (m1, ExecStatus::Fail(VmError::InvalidRegister))
            } else {
                (Model { reg: m1.reg.update(r as int, m1.data[a as int]), ..m1 }, ExecStatus::Done)
            }
        },
        Instruction::ADD(a, b) => spec_binop_step(m1, BinOp::Add, a, b),
        Instruction::SUB(a, b) => spec_binop_step(m1, BinOp::Sub, a, b),
        Instruction::MUL(a, b) => spec_binop_step(m1, BinOp::Mul, a, b),
        // quirk of the instruction set: DIV divides the second register's
        // value by the first's, so the divisor is the first operand
        Instruction::DIV(a, b) => spec_binop_step(m1, BinOp::Div, b, a),
        Instruction::AND(a, b) => spec_binop_step(m1, BinOp::And, a, b),
        Instruction::OR(a, b) => spec_binop_step(m1, BinOp::Or, a, b),
        Instruction::XOR(a, b) => spec_binop_step(m1, BinOp::Xor, a, b),
        Instruction::SHR(r, v) => {
            if r < 8 {
                spec_binop_values(m1, BinOp::Shr, m1.reg[r as int], v)
            } else {
                (m1, ExecStatus::Fail(VmError::InvalidRegister))
            }
        },
        Instruction::SHL(r, v) => {
            if r < 8 {
                spec_binop_values(m1, BinOp::Shl, m1.reg[r as int], v)
            } else {
                (m1, ExecStatus::Fail(VmError::InvalidRegister))
            }
        },
        Instruction::VPUSH(v) => (Model { stack: m1.stack.push(v), ..m1 }, ExecStatus::Done),
        Instruction::VPUSHR(r) => {
            if r < 8 {
                (Model { stack: m1.stack.push(m1.reg[r as int]), ..m1 }, ExecStatus::Done)
            } else {
                (m1, ExecStatus::Fail(VmError::InvalidRegister))
            }
        },
        Instruction::VPOP(r) => {
            if m1.stack.len() == 0 {
                (m1, ExecStatus::Fail(VmError::StackUnderflow))
            } else {
                let v = m1.stack.last();
                let m2 = Model { stack: m1.stack.drop_last(), ..m1 };
                if r < 8 {
                    (Model { reg: m2.reg.update(r as int, v), ..m2 }, ExecStatus::Done)
                } else {
                    (m2, ExecStatus::Fail(VmError::InvalidRegister))
                }
            }
        },
        Instruction::CALL(r) => {
            let low = m1.ip % 0x10000;
            if low == 0xffff {
                (m1, ExecStatus::Fail(VmError::Overflow))
            } else {
                let m2 = Model {
                    stack: m1.stack.push(Immediate::U16((low + 1) as u16)),
                    ..m1
                };
                spec_jump(m2, r)
            }
        },
        Instruction::RET() => {
            if m1.stack.len() == 0 {
                (m1, ExecStatus::Fail(VmError::StackUnderflow))
            } else {
                let v = m1.stack.last();
                let m2 = Model { stack: m1.stack.drop_last(), ..m1 };
                match v {
                    Immediate::U8(x) => (Model { ip: x as nat, ..m2 }, ExecStatus::Done),
                    Immediate::U16(x) => (Model { ip: x as nat, ..m2 }, ExecStatus::Done),
                    _ => (m2, ExecStatus::Fail(VmError::InvalidJumpTarget)),
                }
            }
        },
        Instruction::HALT() => (Model { is_executing: false, ..m1 }, ExecStatus::Done),
    }
}

/// How one iteration of the dispatch loop ends, as a value of the model.
pub enum IterSpec {
    /// The instruction completed and the pointer advanced; the loop goes on.
    Ran(Model),
    /// The run paused on a floating-point operation.
    Paused(Model, FloatRequest),
    /// The run aborted, leaving this state behind.
    Failed(Model, VmError),
}

/// True when the dispatch loop stops cleanly at this state: the pointer ran
/// off the code buffer, or the running flag was cleared by `HALT`.
pub open spec fn terminal(m: Model) -> bool {
    m.ip >= m.code.len() || !m.is_executing
}

/// One full iteration of the dispatch loop from a non-terminal state:
/// decode the instruction at the pointer (moving the pointer to its last
/// byte), execute it, and on completion advance the pointer one more byte.
/// (Opaque to the solver; `lemma_iter_decoded` and `lemma_iter_truncated`
/// hand out its value.)
#[verifier::opaque]
pub open spec fn spec_iter(m: Model) -> IterSpec {
    match spec_decode(m.code, m.ip as int) {
        None => IterSpec::Failed(m, VmError::TruncatedCode),
        Some(p) => {
            let m1 = Model { ip: (p.1 - 1) as nat, ..m };
            let r = spec_execute(m1, p.0);
            match r.1 {
                ExecStatus::Done => IterSpec::Ran(Model { ip: (r.0.ip + 1) as nat, ..r.0 }),
                ExecStatus::AwaitFloat(req) => IterSpec::Paused(r.0, req),
                ExecStatus::Fail(e) => IterSpec::Failed(r.0, e),
            }
        },
    }
}

/// The state `b` is reached from `a` by exactly `n` completed iterations of
/// the dispatch loop.
pub open spec fn runs_to(a: Model, b: Model, n: nat) -> bool
    decreases n,
{
    if n == 0 {
        a == b
    } else {
        &&& !terminal(a)
        &&& match spec_iter(a) {
            IterSpec::Ran(m) => runs_to(m, b, (n - 1) as nat),
            _ => false,
        }
    }
}

/// The dispatch loop, standing at `mid` with `left` steps of budget, stops
/// right now with outcome `r` and final state `end`: cleanly when `mid` is
/// terminal, out of budget when none is left, and otherwise by the next
/// iteration pausing or failing.
pub open spec fn finishes(mid: Model, end: Model, r: RunOutcome, left: nat) -> bool {
    if terminal(mid) {
        end == mid && r == RunOutcome::Halted
    } else if left == 0 {
        end == mid && r == RunOutcome::StillRunning
    } else {
        match spec_iter(mid) {
            IterSpec::Ran(_) => false,
            IterSpec::Paused(m2, req) => end == m2 && r == RunOutcome::NeedsFloat(req),
            IterSpec::Failed(m2, e) => end == m2 && r == RunOutcome::Aborted(e),
        }
    }
}

/// The contract of a run from `start` with a budget of `fuel` iterations:
/// some number of completed iterations within the budget, then a stop that
/// yields the outcome `r` and the final state `end`.
pub open spec fn run_ensures(start: Model, end: Model, r: RunOutcome, fuel: u64) -> bool {
    exists|n: nat, mid: Model|
        n <= fuel && #[trigger] runs_to(start, mid, n) && finishes(
            mid,
            end,
            r,
            (fuel - n) as nat,
        )
}

/// The value of `spec_iter` when the instruction at the pointer decodes.
#[verifier::rlimit(100)]
proof fn lemma_iter_decoded(mid: Model, instr: Instruction, end: int, m2: Model, st: ExecStatus)
    requires
        spec_decode(mid.code, mid.ip as int) == Some((instr, end)),
        spec_execute(Model { ip: (end - 1) as nat, ..mid }, instr) == (m2, st),
    ensures
        st == ExecStatus::Done ==> spec_iter(mid) == IterSpec::Ran(
            Model { ip: (m2.ip + 1) as nat, ..m2 },
        ),
        st matches ExecStatus::AwaitFloat(req) ==> spec_iter(mid) == IterSpec::Paused(m2, req),
        st matches ExecStatus::Fail(e) ==> spec_iter(mid) == IterSpec::Failed(m2, e),
{
    reveal(spec_iter);
}

/// The value of `spec_iter` when the instruction at the pointer does not
/// decode.
proof fn lemma_iter_truncated(mid: Model)
    requires
        spec_decode(mid.code, mid.ip as int) is None,
    ensures
        spec_iter(mid) == IterSpec::Failed(mid, VmError::TruncatedCode),
{
    reveal(spec_iter);
}

/// Appending one completed iteration to a chain of `n` completed iterations.
#[verifier::rlimit(100)]
proof fn lemma_runs_to_extend(a: Model, b: Model, c: Model, n: nat)
    requires
        runs_to(a, b, n),
        !terminal(b),
        spec_iter(b) == IterSpec::Ran(c),
    ensures
        runs_to(a, c, n + 1),
    decreases n,
{
    if n == 0 {
        assert(a == b);
        assert(runs_to(c, c, 0));
        assert(runs_to(a, c, 1));
    } else {
        match spec_iter(a) {
            IterSpec::Ran(m) => {
                lemma_runs_to_extend(m, b, c, (n - 1) as nat);
                assert(runs_to(m, c, n));
                assert(runs_to(a, c, n + 1));
            },
            _ => {
                assert(false);
            },
        }
    }
}

/// The state after answering a paused floating-point operation with the
/// result bits: the result value is pushed, the pause is cleared, and the
/// pointer advances past the paused instruction.
pub open spec fn spec_resume(m: Model, bits: u64) -> Model {
    match m.pending {
        Some(req) => {
            let v = match req.width {
                FloatWidth::Single => Immediate::F32(bits as u32),
                FloatWidth::Double => Immediate::F64(bits),
            };
            Model { stack: m.stack.push(v), pending: None, ip: m.ip + 1, ..m }
        },
        None => m,
    }
}

/// Decides `is_arith` executably.
fn op_is_arith(op: BinOp) -> (r: bool)
    ensures
        r == is_arith(op),
{
    match op {
        BinOp::Add => true,
        BinOp::Sub => true,
        BinOp::Mul => true,
        BinOp::Div => true,
        _ => false,
    }
}

impl VirtualMachine {
    /// A fresh machine over the given program bytes and data segment
    /// capacity: instruction pointer at zero, flags clear, every register
    /// and data slot holding `U8(0)`, empty stack and trace, not running.
    pub fn new(c: Vec<u8>, heap_capacity: usize) -> (r: VirtualMachine)
        ensures
            r@.wf(),
            r@ == (Model {
                ip: 0,
                flag_eq: false,
                flag_gt: false,
                reg: Seq::new(8, |i: int| Immediate::U8(0)),
                code: c@,
                stack: Seq::<Immediate>::empty(),
                data: Seq::new(heap_capacity as nat, |i: int| Immediate::U8(0)),
                is_executing: false,
                pending: None,
                trace: Seq::<Seq<char>>::empty(),
            }),
    {
        let mut reg: Vec<Immediate> = Vec::new();
        let mut k: usize = 0;
        while k < 8
            invariant
                k <= 8,
                reg@ =~= Seq::new(k as nat, |i: int| Immediate::U8(0)),
            decreases 8 - k,
        {
            reg.push(Immediate::U8(0));
            k = k + 1;
            proof {
                assert(reg@ =~= Seq::new(k as nat, |i: int| Immediate::U8(0)));
            }
        }
        let mut data: Vec<Immediate> = Vec::new();
        let mut j: usize = 0;
        while j < heap_capacity
            invariant
                j <= heap_capacity,
                data@ =~= Seq::new(j as nat, |i: int| Immediate::U8(0)),
            decreases heap_capacity - j,
        {
            data.push(Immediate::U8(0));
            j = j + 1;
            proof {
                assert(data@ =~= Seq::new(j as nat, |i: int| Immediate::U8(0)));
            }
        }
        let r = VirtualMachine {
            ip: 0,
            flag_eq: false,
            flag_gt: false,
            reg,
            code: c,
            stack: Vec::new(),
            data,
            is_executing: false,
            pending: None,
            trace: Vec::new(),
        };
        proof {
            assert(r@ =~= (Model {
                ip: 0,
                flag_eq: false,
                flag_gt: false,
                reg: Seq::new(8, |i: int| Immediate::U8(0)),
                code: r@.code,
                stack: Seq::<Immediate>::empty(),
                data: Seq::new(heap_capacity as nat, |i: int| Immediate::U8(0)),
                is_executing: false,
                pending: None,
                trace: Seq::<Seq<char>>::empty(),
            }));
        }
        r
    }

    /// Appends the trace line announcing `instr` at the current pointer.
    fn push_trace_line(&mut self, instr: Instruction)
        requires
            old(self)@.ip < usize::MAX,
        ensures
            final(self)@ == with_trace(old(self)@, exec_line_text(instr, old(self)@.ip)),
    {
        let line = render_exec_line(instr, self.ip);
        self.trace.push(line);
        proof {
            assert(self@ =~= with_trace(old(self)@, exec_line_text(instr, old(self)@.ip)));
        }
    }

    /// Sets the instruction pointer from a register, as `JMP` and its
    /// conditional variants do.
    fn do_jump(&mut self, r: Register) -> (st: ExecStatus)
        requires
            old(self)@.wf(),
        ensures
            (final(self)@, st) == spec_jump(old(self)@, r),
            final(self)@.wf(),
            st matches ExecStatus::Done ==> final(self)@.ip <= 0xffff,
            final(self)@.pending == old(self)@.pending,
    {
        if r >= 8 {
            return ExecStatus::Fail(VmError::InvalidRegister);
        }
        let v = self.reg[r];
        match v {
            Immediate::U8(x) => {
                self.ip = x as usize;
                proof {
                    assert(self@ =~= spec_jump(old(self)@, r).0);
                }
                ExecStatus::Done
            },
            Immediate::U16(x) => {
                self.ip = x as usize;
                proof {
                    assert(self@ =~= spec_jump(old(self)@, r).0);
                }
                ExecStatus::Done
            },
            _ => ExecStatus::Fail(VmError::InvalidJumpTarget),
        }
    }

    /// Applies a binary operation to two operand values: floating arithmetic
    /// pauses for the embedding caller, everything else follows the value
    /// model.
    fn do_binop_values(&mut self, op: BinOp, v1: Immediate, v2: Immediate) -> (st: ExecStatus)
        ensures
            (final(self)@, st) == spec_binop_values(old(self)@, op, v1, v2),
            final(self)@.wf() == old(self)@.wf(),
            final(self)@.ip == old(self)@.ip,
            st matches ExecStatus::AwaitFloat(q) ==> final(self)@.pending == Some(q),
            !(st matches ExecStatus::AwaitFloat(_)) ==> final(self)@.pending
                == old(self)@.pending,
    {
        match (v1, v2) {
            (Immediate::F32(x), Immediate::F32(y)) => {
                if op_is_arith(op) {
                    let req = FloatRequest {
                        op,
                        width: FloatWidth::Single,
                        lhs: x as u64,
                        rhs: y as u64,
                    };
                    self.pending = Some(req);
                    proof {
                        assert(self@ =~= spec_binop_values(old(self)@, op, v1, v2).0);
                    }
                    ExecStatus::AwaitFloat(req)
                } else {
                    ExecStatus::Fail(VmError::UnsupportedType)
                }
            },
            (Immediate::F64(x), Immediate::F64(y)) => {
                if op_is_arith(op) {
                    let req = FloatRequest { op, width: FloatWidth::Double, lhs: x, rhs: y };
                    self.pending = Some(req);
                    proof {
                        assert(self@ =~= spec_binop_values(old(self)@, op, v1, v2).0);
                    }
                    ExecStatus::AwaitFloat(req)
                } else {
                    ExecStatus::Fail(VmError::UnsupportedType)
                }
            },
            _ => match apply_binop(op, v1, v2) {
                Ok(res) => {
                    self.stack.push(res);
                    proof {
                        assert(self@ =~= spec_binop_values(old(self)@, op, v1, v2).0);
                    }
                    ExecStatus::Done
                },
                Err(e) => ExecStatus::Fail(e),
            },
        }
    }

    /// Applies a binary operation to two registers.
    fn do_binop(&mut self, op: BinOp, a: Register, b: Register) -> (st: ExecStatus)
        requires
            old(self)@.wf(),
        ensures
            (final(self)@, st) == spec_binop_step(old(self)@, op, a, b),
            final(self)@.wf(),
            final(self)@.ip == old(self)@.ip,
            st matches ExecStatus::AwaitFloat(q) ==> final(self)@.pending == Some(q),
            !(st matches ExecStatus::AwaitFloat(_)) ==> final(self)@.pending
                == old(self)@.pending,
    {
        if a >= 8 || b >= 8 {
            return ExecStatus::Fail(VmError::InvalidRegister);
        }
        let v1 = self.reg[a];
        let v2 = self.reg[b];
        self.do_binop_values(op, v1, v2)
    }

    /// Applies one decoded instruction to the machine state, returning
    /// whether it completed, paused for a floating-point operation, or
    /// failed. The state after the call, the trace line appended, and the
    /// status are exactly those of the transition function `spec_execute`;
    /// a failing instruction keeps the partial effects it had already made.
    pub fn execute(&mut self, instr: Instruction) -> (st: ExecStatus)
        requires
            old(self)@.wf(),
            old(self)@.ip < usize::MAX,
        ensures
            (final(self)@, st) == spec_execute(old(self)@, instr),
            final(self)@.wf(),
            final(self)@.code == old(self)@.code,
            st matches ExecStatus::Done ==> final(self)@.ip == old(self)@.ip || final(self)@.ip
                <= 0xffff,
            st matches ExecStatus::AwaitFloat(q) ==> final(self)@.pending == Some(q)
                && final(self)@.ip == old(self)@.ip,
            !(st matches ExecStatus::AwaitFloat(_)) ==> final(self)@.pending
                == old(self)@.pending,
    {
        self.push_trace_line(instr);
        match instr {
            Instruction::NOP() => ExecStatus::Done,
            Instruction::MOV(r, v) => {
                if r < 8 {
                    self.reg[r] = v;
                    proof {
                        assert(self@ =~= spec_execute(old(self)@, instr).0);
                    }
                    ExecStatus::Done
                } else {
                    ExecStatus::Fail(VmError::InvalidRegister)
                }
            },
            Instruction::MOVR(d, s) => {
                if d < 8 && s < 8 {
                    let v = self.reg[s];
                    self.reg[d] = v;
                    proof {
                        assert(self@ =~= spec_execute(old(self)@, instr).0);
                    }
                    ExecStatus::Done
                } else {
                    ExecStatus::Fail(VmError::InvalidRegister)
                }
            },
            Instruction::JMP(r) => self.do_jump(r),
            Instruction::JE(r) => {
                if self.flag_eq {
                    self.do_jump(r)
                } else {
                    ExecStatus::Done
                }
            },
            Instruction::JNE(r) => {
                if !self.flag_eq {
                    self.do_jump(r)
                } else {
                    ExecStatus::Done
                }
            },
            Instruction::JG(r) => {
                if self.flag_gt {
                    self.do_jump(r)
                } else {
                    ExecStatus::Done
                }
            },
            Instruction::JL(r) => {
                if !self.flag_gt {
                    self.do_jump(r)
                } else {
                    ExecStatus::Done
                }
            },
            Instruction::CMP(a, b) => {
                if a < 8 && b < 8 {
                    let v1 = self.reg[a];
                    let v2 = self.reg[b];
                    self.flag_eq = immediate_eq(v1, v2);
                    self.flag_gt = immediate_gt(v1, v2);
                    proof {
                        assert(self@ =~= spec_execute(old(self)@, instr).0);
                    }
                    ExecStatus::Done
                } else {
                    ExecStatus::Fail(VmError::InvalidRegister)
                }
            },
            Instruction::PRINTR(r) => {
                if r < 8 {
                    let line = render_print_line(self.reg[r]);
                    self.trace.push(line);
                    proof {
                        assert(self@ =~= spec_execute(old(self)@, instr).0);
                    }
                    ExecStatus::Done
                } else {
                    ExecStatus::Fail(VmError::InvalidRegister)
                }
            },
            Instruction::PRINTV(a) => {
                if a < self.data.len() {
                    let line = render_print_line(self.data[a]);
                    self.trace.push(line);
                    proof {
                        assert(self@ =~= spec_execute(old(self)@, instr).0);
                    }
                    ExecStatus::Done
                } else {
                    ExecStatus::Fail(VmError::InvalidAddress)
                }
            },
            Instruction::VSTORE(a, v) => {
                if a < self.data.len() {
                    self.data[a] = v;
                    proof {
                        assert(self@ =~= spec_execute(old(self)@, instr).0);
                    }
                    ExecStatus::Done
                } else {
                    ExecStatus::Fail(VmError::InvalidAddress)
                }
            },
            Instruction::VLOAD(a) => {
                if a < self.data.len() {
                    let v = self.data[a];
                    self.stack.push(v);
                    proof {
                        assert(self@ =~= spec_execute(old(self)@, instr).0);
                    }
                    ExecStatus::Done
                } else {
                    ExecStatus::Fail(VmError::InvalidAddress)
                }
            },
            Instruction::VSTORER(a, r) => {
                if r >= 8 {
                    ExecStatus::Fail(VmError::InvalidRegister)
                } else if a >= self.data.len() {
                    ExecStatus::Fail(VmError::InvalidAddress)
                } else {
                    let v = self.reg[r];
                    self.data[a] = v;
                    proof {
                        assert(self@ =~= spec_execute(old(self)@, instr).0);
                    }
                    ExecStatus::Done
                }
            },
            Instruction::VLOADR(r, a) => {
                if a >= self.data.len() {
                    ExecStatus::Fail(VmError::InvalidAddress)
                } else if r >= 8 {
                    ExecStatus::Fail(VmError::InvalidRegister)
                } else {
                    let v = self.data[a];
                    self.reg[r] = v;
                    proof {
                        assert(self@ =~= spec_execute(old(self)@, instr).0);
                    }
                    ExecStatus::Done
                }
            },
            Instruction::ADD(a, b) => self.do_binop(BinOp::Add, a, b),
            Instruction::SUB(a, b) => self.do_binop(BinOp::Sub, a, b),
            Instruction::MUL(a, b) => self.do_binop(BinOp::Mul, a, b),
            Instruction::DIV(a, b) => self.do_binop(BinOp::Div, b, a),
            Instruction::AND(a, b) => self.do_binop(BinOp::And, a, b),
            Instruction::OR(a, b) => self.do_binop(BinOp::Or, a, b),
            Instruction::XOR(a, b) => self.do_binop(BinOp::Xor, a, b),
            Instruction::SHR(r, v) => {
                if r < 8 {
                    let v1 = self.reg[r];
                    self.do_binop_values(BinOp::Shr, v1, v)
                } else {
                    ExecStatus::Fail(VmError::InvalidRegister)
                }
            },
            Instruction::SHL(r, v) => {
                if r < 8 {
                    let v1 = self.reg[r];
                    self.do_binop_values(BinOp::Shl, v1, v)
                } else {
                    ExecStatus::Fail(VmError::InvalidRegister)
                }
            },
            Instruction::VPUSH(v) => {
                self.stack.push(v);
                proof {
                    assert(self@ =~= spec_execute(old(self)@, instr).0);
                }
                ExecStatus::Done
            },
            Instruction::VPUSHR(r) => {
                if r < 8 {
                    let v = self.reg[r];
                    self.stack.push(v);
                    proof {
                        assert(self@ =~= spec_execute(old(self)@, instr).0);
                    }
                    ExecStatus::Done
                } else {
                    ExecStatus::Fail(VmError::InvalidRegister)
                }
            },
            Instruction::VPOP(r) => {
                match self.stack.pop() {
                    Some(v) => {
                        if r < 8 {
                            self.reg[r] = v;
                            proof {
                                assert(self@ =~= spec_execute(old(self)@, instr).0);
                            }
                            ExecStatus::Done
                        } else {
                            ExecStatus::Fail(VmError::InvalidRegister)
                        }
                    },
                    None => ExecStatus::Fail(VmError::StackUnderflow),
                }
            },
            Instruction::CALL(r) => {
                let low = self.ip % 0x10000;
                if low == 0xffff {
                    ExecStatus::Fail(VmError::Overflow)
                } else {
                    self.stack.push(Immediate::U16((low + 1) as u16));
                    self.do_jump(r)
                }
            },
            Instruction::RET() => {
                match self.stack.pop() {
                    Some(v) => match v {
                        Immediate::U8(x) => {
                            self.ip = x as usize;
                            proof {
                                assert(self@ =~= spec_execute(old(self)@, instr).0);
                            }
                            ExecStatus::Done
                        },
                        Immediate::U16(x) => {
                            self.ip = x as usize;
                            proof {
                                assert(self@ =~= spec_execute(old(self)@, instr).0);
                            }
                            ExecStatus::Done
                        },
                        _ => ExecStatus::Fail(VmError::InvalidJumpTarget),
                    },
                    None => ExecStatus::Fail(VmError::StackUnderflow),
                }
            },
            Instruction::HALT() => {
                self.is_executing = false;
                proof {
                    assert(self@ =~= spec_execute(old(self)@, instr).0);
                }
                ExecStatus::Done
            },
        }
    }

    /// Decodes the instruction at the current pointer, leaving the pointer
    /// on the instruction's last consumed byte (the dispatch loop advances
    /// it once more). On a truncated instruction the state is unchanged and
    /// the run must abort.
    pub fn decode(&mut self) -> (r: Result<Instruction, VmError>)
        ensures
            final(self)@.wf() == old(self)@.wf(),
            match spec_decode(old(self)@.code, old(self)@.ip as int) {
                Some(p) => r matches Ok(i) && i == p.0 && final(self)@ == (Model {
                    ip: (p.1 - 1) as nat,
                    ..old(self)@
                }) && final(self)@.ip < final(self)@.code.len(),
                None => r == Err::<Instruction, VmError>(VmError::TruncatedCode) && final(self)@
                    == old(self)@,
            },
    {
        match decode_at(&self.code, self.ip) {
            Ok((i, end)) => {
                self.ip = end - 1;
                proof {
                    assert(self@ =~= (Model {
                        ip: (spec_decode(old(self)@.code, old(self)@.ip as int)->Some_0.1
                            - 1) as nat,
                        ..old(self)@
                    }));
                }
                Ok(i)
            },
            Err(e) => Err(e),
        }
    }

    /// Decodes the immediate operand whose type tag sits one byte past the
    /// current pointer, leaving the pointer on the immediate's last consumed
    /// byte.
    pub fn decode_immediate(&mut self) -> (r: Result<Immediate, VmError>)
        requires
            old(self)@.ip < usize::MAX,
        ensures
            final(self)@.wf() == old(self)@.wf(),
            match spec_decode_immediate(old(self)@.code, old(self)@.ip as int + 1) {
                Some(p) => r matches Ok(v) && v == p.0 && final(self)@ == (Model {
                    ip: (p.1 - 1) as nat,
                    ..old(self)@
                }),
                None => r == Err::<Immediate, VmError>(VmError::TruncatedCode) && final(self)@
                    == old(self)@,
            },
    {
        match decode_immediate_at(&self.code, self.ip + 1) {
            Ok((v, end)) => {
                self.ip = end - 1;
                proof {
                    assert(self@ =~= (Model {
                        ip: (spec_decode_immediate(old(self)@.code, old(self)@.ip as int + 1)->Some_0.1
                            - 1) as nat,
                        ..old(self)@
                    }));
                }
                Ok(v)
            },
            Err(e) => Err(e),
        }
    }

    /// The dispatch loop proper: decode, execute, advance, until the state
    /// is terminal, an instruction pauses or fails, or the budget runs out.
    #[verifier::rlimit(100)]
    fn run_loop(&mut self, fuel: u64) -> (r: RunOutcome)
        requires
            old(self)@.wf(),
            old(self)@.pending is None,
        ensures
            final(self)@.wf(),
            run_ensures(old(self)@, final(self)@, r, fuel),
            r matches RunOutcome::NeedsFloat(q) ==> final(self)@.pending == Some(q)
                && final(self)@.ip < final(self)@.code.len(),
            !(r matches RunOutcome::NeedsFloat(_)) ==> final(self)@.pending is None,
            !(r matches RunOutcome::AlreadyRunning),
    {
        let ghost start = self@;
        let ghost mut n: nat = 0;
        let mut left: u64 = fuel;
        loop
            invariant
                start == old(self)@,
                self@.wf(),
                self@.pending is None,
                runs_to(start, self@, n),
                n + left == fuel,
            decreases left,
        {
            if !(self.ip < self.code.len() && self.is_executing) {
                proof {
                    assert(terminal(self@));
                    assert(finishes(self@, self@, RunOutcome::Halted, (fuel - n) as nat));
                    assert(runs_to(old(self)@, self@, n));
                    assert(run_ensures(old(self)@, self@, RunOutcome::Halted, fuel));
                }
                return RunOutcome::Halted;
            }
            if left == 0 {
                proof {
                    assert(finishes(self@, self@, RunOutcome::StillRunning, 0));
                    assert(runs_to(old(self)@, self@, n));
                    assert(run_ensures(old(self)@, self@, RunOutcome::StillRunning, fuel));
                }
                return RunOutcome::StillRunning;
            }
            left = left - 1;
            let ghost mid = self@;
            let instr = match self.decode() {
                Ok(i) => i,
                Err(e) => {
                    proof {
                        lemma_iter_truncated(mid);
                        assert(finishes(mid, self@, RunOutcome::Aborted(e), (fuel - n) as nat));
                        assert(runs_to(old(self)@, mid, n));
                        assert(run_ensures(old(self)@, self@, RunOutcome::Aborted(e), fuel));
                    }
                    return RunOutcome::Aborted(e);
                },
            };
            let ghost end = spec_decode(mid.code, mid.ip as int)->Some_0.1;
            let st = self.execute(instr);
            let ghost m2 = self@;
            proof {
                lemma_iter_decoded(mid, instr, end, m2, st);
            }
            match st {
                ExecStatus::Done => {
                    self.ip = self.ip + 1;
                    proof {
                        assert(self@ =~= (Model { ip: (m2.ip + 1) as nat, ..m2 }));
                        assert(spec_iter(mid) == IterSpec::Ran(self@));
                        lemma_runs_to_extend(start, mid, self@, n);
                        n = n + 1;
                    }
                },
                ExecStatus::AwaitFloat(req) => {
                    proof {
                        assert(spec_iter(mid) == IterSpec::Paused(self@, req));
                        assert(finishes(mid, self@, RunOutcome::NeedsFloat(req), (fuel - n) as nat));
                        assert(runs_to(old(self)@, mid, n));
                        assert(run_ensures(old(self)@, self@, RunOutcome::NeedsFloat(req), fuel));
                    }
                    return RunOutcome::NeedsFloat(req);
                },
                ExecStatus::Fail(e) => {
                    proof {
                        assert(spec_iter(mid) == IterSpec::Failed(self@, e));
                        assert(!terminal(mid));
                        assert(finishes(mid, self@, RunOutcome::Aborted(e), (fuel - n) as nat));
                        assert(runs_to(old(self)@, mid, n));
                        assert(run_ensures(old(self)@, self@, RunOutcome::Aborted(e), fuel));
                    }
                    return RunOutcome::Aborted(e);
                },
            }
        }
    }

    /// Runs the machine to completion or failure: the dispatch loop of the
    /// engine. On a machine that is already mid-run the call is a guarded
    /// no-op. Otherwise the running flag is set and the loop follows
    /// `spec_iter` from that state until it halts cleanly (`HALT`, or the
    /// pointer running off the code), pauses for a floating-point operation,
    /// or aborts on the first failing instruction with no further
    /// instructions executed.
    pub fn cpu(&mut self, fuel: u64) -> (r: RunOutcome)
        requires
            old(self)@.wf(),
            old(self)@.pending is None,
        ensures
            final(self)@.wf(),
            old(self)@.is_executing ==> r == RunOutcome::AlreadyRunning
                && final(self)@ == old(self)@,
            !old(self)@.is_executing ==> run_ensures(
                Model { is_executing: true, ..old(self)@ },
                final(self)@,
                r,
                fuel,
            ),
            r matches RunOutcome::NeedsFloat(q) ==> final(self)@.pending == Some(q)
                && final(self)@.ip < final(self)@.code.len(),
            !(r matches RunOutcome::NeedsFloat(_)) ==> final(self)@.pending is None,
    {
        if self.is_executing {
            return RunOutcome::AlreadyRunning;
        }
        self.is_executing = true;
        proof {
            assert(self@ =~= (Model { is_executing: true, ..old(self)@ }));
        }
        self.run_loop(fuel)
    }

    /// Continues a run whose step budget ran out: the dispatch loop goes on
    /// from the current state with a fresh budget. On a terminal state it
    /// reports `Halted` at once.
    pub fn resume(&mut self, fuel: u64) -> (r: RunOutcome)
        requires
            old(self)@.wf(),
            old(self)@.pending is None,
        ensures
            final(self)@.wf(),
            run_ensures(old(self)@, final(self)@, r, fuel),
            r matches RunOutcome::NeedsFloat(q) ==> final(self)@.pending == Some(q)
                && final(self)@.ip < final(self)@.code.len(),
            !(r matches RunOutcome::NeedsFloat(_)) ==> final(self)@.pending is None,
    {
        self.run_loop(fuel)
    }

    /// Answers the floating-point operation the machine is paused on: the
    /// caller computed the IEEE 754 result of the request and hands back its
    /// bit pattern (the low 32 bits for a `Single` request). The result
    /// value is pushed, the pointer advances past the paused instruction,
    /// and the dispatch loop continues as `cpu` would.
    pub fn resume_float(&mut self, bits: u64, fuel: u64) -> (r: RunOutcome)
        requires
            old(self)@.wf(),
            old(self)@.pending is Some,
            old(self)@.ip < old(self)@.code.len(),
        ensures
            final(self)@.wf(),
            run_ensures(spec_resume(old(self)@, bits), final(self)@, r, fuel),
            r matches RunOutcome::NeedsFloat(q) ==> final(self)@.pending == Some(q)
                && final(self)@.ip < final(self)@.code.len(),
            !(r matches RunOutcome::NeedsFloat(_)) ==> final(self)@.pending is None,
    {
        let req = match self.pending {
            Some(q) => q,
            None => {
                proof {
                    assert(false);
                }
                FloatRequest { op: BinOp::Add, width: FloatWidth::Single, lhs: 0, rhs: 0 }
            },
        };
        let cl = self.code.len();
        let v = match req.width {
            FloatWidth::Single => Immediate::F32(#[verifier::truncate] (bits as u32)),
            FloatWidth::Double => Immediate::F64(bits),
        };
        self.stack.push(v);
        self.pending = None;
        self.ip = self.ip + 1;
        proof {
            assert(self@ =~= spec_resume(old(self)@, bits));
        }
        self.run_loop(fuel)
    }

    /// The current instruction pointer.
    pub fn ip(&self) -> (r: usize)
        ensures
            r == self@.ip,
    {
        self.ip
    }

    /// The `equal` condition flag.
    pub fn flag_equal(&self) -> (r: bool)
        ensures
            r == self@.flag_eq,
    {
        self.flag_eq
    }

    /// The `greater` condition flag.
    pub fn flag_greater(&self) -> (r: bool)
        ensures
            r == self@.flag_gt,
    {
        self.flag_gt
    }

    /// The value of register `i`.
    pub fn register(&self, i: Register) -> (r: Immediate)
        requires
            self@.wf(),
            i < 8,
        ensures
            r == self@.reg[i as int],
    {
        self.reg[i]
    }

    /// How many values the operand stack holds.
    pub fn stack_len(&self) -> (r: usize)
        ensures
            r == self@.stack.len(),
    {
        self.stack.len()
    }

    /// The stack value at depth `i`, counted from the bottom.
    pub fn stack_at(&self, i: usize) -> (r: Immediate)
        requires
            i < self@.stack.len(),
        ensures
            r == self@.stack[i as int],
    {
        self.stack[i]
    }

    /// The capacity of the data segment.
    pub fn data_len(&self) -> (r: usize)
        ensures
            r == self@.data.len(),
    {
        self.data.len()
    }

    /// The data segment value at address `a`.
    pub fn data_at(&self, a: Address) -> (r: Immediate)
        requires
            a < self@.data.len(),
        ensures
            r == self@.data[a as int],
    {
        self.data[a]
    }

    /// Whether the running flag is set.
    pub fn is_running(&self) -> (r: bool)
        ensures
            r == self@.is_executing,
    {
        self.is_executing
    }

    /// The floating-point request the machine is paused on, if any.
    pub fn pending_request(&self) -> (r: Option<FloatRequest>)
        ensures
            r == self@.pending,
    {
        self.pending
    }

    /// How many trace lines have been emitted.
    pub fn trace_len(&self) -> (r: usize)
        ensures
            r == self@.trace.len(),
    {
        self.trace.len()
    }

    /// The trace line at index `i`.
    pub fn trace_line(&self, i: usize) -> (r: &String)
        requires
            i < self@.trace.len(),
        ensures
            r@ == self@.trace[i as int],
    {
        &self.trace[i]
    }

}

} // verus!
