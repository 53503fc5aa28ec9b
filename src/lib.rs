//! A virtual machine for the tx8 bytecode: it loads a ROM image, decodes the instructions at
//! the program counter and carries them out on eight 32-bit registers and a 16 MiB address
//! space. Binary32 arithmetic, printing and input are left to the embedder: a step that needs
//! one of them says so in its `Effect`.
pub mod errors;
pub mod execution;
pub mod hardware;
pub mod instruction;
pub mod laws;
pub mod parameter;
pub mod random;
pub mod rom;
pub mod semantics;

pub use errors::Tx8Error;
pub use execution::{
    hash, Effect, Execution, FloatOp, FloatRequest, FloatResult, Print, SysCall,
};
pub use hardware::{Cpu, Memory};
pub use instruction::{parse_instruction, Comparison, Instruction, OpCode, Type};
pub use parameter::{
    parse_par_mode, parse_parameter, AbsoluteAddress, Parameter, ParameterMode, Register,
    RegisterAddress, RelativeAddress, Size, Value, Writable, Write,
};
pub use random::Rand;
pub use rom::{parse_rom, Rom};
