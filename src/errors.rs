use vstd::prelude::*;

verus! {

/// What can go wrong while loading or running a program.
#[derive(Clone, Copy, Debug, PartialEq, Eq, Structural)]
pub enum Tx8Error {
    ParseError,
    InstructionError,
    OutOfBoundsWrite,
    InvalidRegister,
    InvalidSysCall,
    InvalidOpCode(u8),
    DivisionByZero,
    NoInputGiven,
}

} // verus!
