//! A register-based bytecode virtual machine.
//!
//! The machine fetches instructions from a flat byte buffer, decodes them
//! into typed operations, and executes them against a file of eight
//! registers, a growable operand stack, and a fixed-capacity data segment.
//! Every step of the engine is specified and verified: the decoder is proved
//! to consume exactly the documented operand bytes, the execution engine is
//! proved to implement a mathematical transition function over the machine
//! state, and the dispatch loop is proved to follow that transition function
//! until the program halts, runs off the end of the code, or fails.
//!
//! Every loop in the library is proved terminating, so a run takes an
//! explicit step budget: a budget that runs out leaves the machine mid-run
//! with the `StillRunning` outcome, and `resume` continues it.
//!
//! Floating-point values are carried as their raw IEEE 754 bit patterns;
//! comparisons on them are implemented bit-level in the library, while the
//! four arithmetic operations are handed out to the embedding caller through
//! a pause/resume protocol, since the library itself contains no
//! floating-point code.

pub mod decode;
pub mod laws;
pub mod machine;
pub mod text;
pub mod value;

pub use decode::Instruction;
pub use machine::ExecStatus;
pub use machine::FloatRequest;
pub use machine::FloatWidth;
pub use machine::Model;
pub use machine::RunOutcome;
pub use machine::VirtualMachine;
pub use value::Address;
pub use value::BinOp;
pub use value::Immediate;
pub use value::Register;
pub use value::VmError;
