use bytevm::Immediate;
use bytevm::RunOutcome;
use bytevm::VirtualMachine;
use bytevm::VmError;

const FUEL: u64 = 100_000;

fn run(code: Vec<u8>, heap: usize) -> (VirtualMachine, RunOutcome) {
    let mut vm = VirtualMachine::new(code, heap);
    let out = vm.cpu(FUEL);
    (vm, out)
}

fn trace_lines(vm: &VirtualMachine) -> Vec<String> {
    let mut lines = Vec::new();
    let n = vm.trace_len();
    let mut i = 0;
    while i < n {
        lines.push(vm.trace_line(i).clone());
        i += 1;
    }
    lines
}

#[test]
fn scenario_print_halts_cleanly() {
    // MOV R0, U8(5); PRINTR R0; HALT
    let (vm, out) = run(vec![1, 0, 0, 5, 7, 0, 22], 16);
    assert_eq!(out, RunOutcome::Halted);
    assert_eq!(vm.register(0), Immediate::U8(5));
    assert!(!vm.is_running());
    let lines = trace_lines(&vm);
    assert!(lines.iter().any(|l| l == "Printing: U8(5)"));
    assert!(lines.iter().any(|l| l.contains("5")));
}

#[test]
fn scenario_branch_on_greater() {
    // MOV R0, U8(10); MOV R1, U8(8); MOV R2, U8(22); MOV R3, U8(25);
    // CMP R0, R1; JG R2; JMP R3; PRINTR R0; HALT; PRINTR R1; HALT
    let code = vec![
        1, 0, 0, 10, 1, 1, 0, 8, 1, 2, 0, 22, 1, 3, 0, 25, 6, 0, 1, 23, 2, 3, 3, 7, 0, 22, 7, 1,
        22,
    ];
    let (vm, out) = run(code, 16);
    assert_eq!(out, RunOutcome::Halted);
    assert!(vm.flag_greater());
    assert!(!vm.flag_equal());
    let lines = trace_lines(&vm);
    assert!(lines.iter().any(|l| l == "Printing: U8(10)"));
    assert!(!lines.iter().any(|l| l == "Printing: U8(8)"));
}

#[test]
fn scenario_add_mismatch_aborts() {
    // MOV R0, U8(4); MOV R1, I8(4); ADD R0, R1; HALT
    let (vm, out) = run(vec![1, 0, 0, 4, 1, 1, 1, 4, 11, 0, 1, 22], 16);
    assert_eq!(out, RunOutcome::Aborted(VmError::TypeMismatch));
    // the run aborted before HALT: the running flag is still set
    assert!(vm.is_running());
    assert_eq!(vm.stack_len(), 0);
    let lines = trace_lines(&vm);
    assert!(!lines.iter().any(|l| l.contains("HALT")));
}

#[test]
fn scenario_pop_on_empty_stack_aborts() {
    // VPOP R0 as the first instruction
    let (vm, out) = run(vec![19, 0], 16);
    assert_eq!(out, RunOutcome::Aborted(VmError::StackUnderflow));
    assert_eq!(vm.register(0), Immediate::U8(0));
}

#[test]
fn scenario_call_and_return() {
    // MOV R0, U8(7); CALL R0; NOP; HALT; RET
    // CALL executes with the pointer on its operand byte (offset 5) and
    // pushes U16(6), the offset immediately following that byte. The jump
    // lands one byte past the target (7 + 1 = 8, the RET), and RET returns
    // one byte past the pushed offset (6 + 1 = 7, the HALT).
    let (vm, out) = run(vec![1, 0, 0, 7, 20, 0, 0, 22, 21], 16);
    assert_eq!(out, RunOutcome::Halted);
    assert!(!vm.is_running());
    assert_eq!(vm.stack_len(), 0);
    // HALT sat at offset 7; the loop advanced once more after it
    assert_eq!(vm.ip(), 8);
    let lines = trace_lines(&vm);
    assert!(lines.iter().any(|l| l.starts_with("Executing: RET")));
    assert!(lines.iter().any(|l| l.starts_with("Executing: HALT")));
}

#[test]
fn trace_lines_are_exact() {
    let (vm, out) = run(vec![1, 0, 0, 5, 22], 16);
    assert_eq!(out, RunOutcome::Halted);
    assert_eq!(vm.trace_len(), 2);
    assert_eq!(vm.trace_line(0).as_str(), "Executing: MOV(0, U8(5))  current ip: 4");
    assert_eq!(vm.trace_line(1).as_str(), "Executing: HALT  current ip: 5");
}

#[test]
fn reentrant_run_is_a_no_op() {
    // MOV R0, U8(3); JMP R0: the jump lands one byte past its target,
    // back on the JMP itself, so the program never ends
    let mut vm = VirtualMachine::new(vec![1, 0, 0, 3, 3, 0], 16);
    let out = vm.cpu(10);
    assert_eq!(out, RunOutcome::StillRunning);
    // the machine is mid-run: a second cpu call does nothing
    assert_eq!(vm.cpu(10), RunOutcome::AlreadyRunning);
    // resume carries on instead
    assert_eq!(vm.resume(10), RunOutcome::StillRunning);
}
