use crate::errors::Tx8Error;
use crate::hardware::{spec_read_byte, Cpu, Memory};
use crate::parameter::{
    footprint, parse_par_mode, parse_parameter, spec_par_mode, spec_parameter, spec_value,
    spec_value_signed, spec_writable, Parameter, Register, Size, Value, Writable,
};
use crate::semantics::FLOAT_PLUS_ONE;
use vstd::prelude::*;

verus! {

/// Decoding at an address above this one is refused: the longest instruction (ten bytes)
/// would run past the end of the address space.
pub const MAX_DECODE_ADDRESS: u32 = 0xfffff0;

/// Operation named by the first byte of an instruction.
#[derive(Clone, Copy, Debug, PartialEq, Eq, Structural)]
pub enum OpCode {
    Halt,
    Nop,
    Jump,
    JumpEqual,
    JumpNotEqual,
    JumpGreaterThan,
    JumpGreaterEqual,
    JumpLessThan,
    JumpLessEqual,
    CompareSigned,
    CompareFloat,
    CompareUnsigned,
    Call,
    Return,
    SysCall,
    Load,
    LoadSigned,
    LoadWord,
    LoadWordSigned,
    LoadA,
    StoreA,
    LoadB,
    StoreB,
    LoadC,
    StoreC,
    LoadD,
    StoreD,
    Zero,
    Push,
    Pop,
    Inc,
    Dec,
    Add,
    Sub,
    Mul,
    Div,
    Mod,
    Max,
    Min,
    Abs,
    Sign,
    And,
    Or,
    Not,
    Nand,
    Xor,
    ShiftLogicalRight,
    ShiftArithRight,
    ShiftLogicLeft,
    RotateRight,
    RotateLeft,
    SetBit,
    Clear,
    Toggle,
    Test,
    IncFloat,
    DecFloat,
    AddFloat,
    SubFloat,
    MulFloat,
    DivFloat,
    ModFloat,
    MaxFloat,
    MinFloat,
    AbsFloat,
    SignFloat,
    Sin,
    Cos,
    Tan,
    ArcSin,
    ArcCos,
    ArcTan,
    ArcTan2,
    Sqrt,
    Pow,
    Exp,
    Log,
    Log2,
    Log10,
    AddUnsigned,
    SubUnsigned,
    MulUnsigned,
    DivUnsigned,
    ModUnsigned,
    MaxUnsigned,
    MinUnsigned,
    Rand,
    RSeed,
    ItoF,
    FtoI,
    UtoF,
    FtoU,
}

/// The operation that an opcode byte names.
pub open spec fn spec_op_code(byte: u8) -> Result<OpCode, Tx8Error> {
    match byte {
        0x00 => Ok(OpCode::Halt),
        0x01 => Ok(OpCode::Nop),
        0x02 => Ok(OpCode::Jump),
        0x03 => Ok(OpCode::JumpEqual),
        0x04 => Ok(OpCode::JumpNotEqual),
        0x05 => Ok(OpCode::JumpGreaterThan),
        0x06 => Ok(OpCode::JumpGreaterEqual),
        0x07 => Ok(OpCode::JumpLessThan),
        0x08 => Ok(OpCode::JumpLessEqual),
        0x09 => Ok(OpCode::CompareSigned),
        0x0a => Ok(OpCode::CompareFloat),
        0x0b => Ok(OpCode::CompareUnsigned),
        0x0c => Ok(OpCode::Call),
        0x0d => Ok(OpCode::Return),
        0x0e => Ok(OpCode::SysCall),
        0x10 => Ok(OpCode::Load),
        0x11 => Ok(OpCode::LoadSigned),
        0x12 => Ok(OpCode::LoadWord),
        0x13 => Ok(OpCode::LoadWordSigned),
        0x14 => Ok(OpCode::LoadA),
        0x15 => Ok(OpCode::StoreA),
        0x16 => Ok(OpCode::LoadB),
        0x17 => Ok(OpCode::StoreB),
        0x18 => Ok(OpCode::LoadC),
        0x19 => Ok(OpCode::StoreC),
        0x1a => Ok(OpCode::LoadD),
        0x1b => Ok(OpCode::StoreD),
        0x1c => Ok(OpCode::Zero),
        0x1d => Ok(OpCode::Push),
        0x1e => Ok(OpCode::Pop),
        0x20 => Ok(OpCode::Inc),
        0x21 => Ok(OpCode::Dec),
        0x22 => Ok(OpCode::Add),
        0x23 => Ok(OpCode::Sub),
        0x24 => Ok(OpCode::Mul),
        0x25 => Ok(OpCode::Div),
        0x26 => Ok(OpCode::Mod),
        0x27 => Ok(OpCode::Max),
        0x28 => Ok(OpCode::Min),
        0x29 => Ok(OpCode::Abs),
        0x2a => Ok(OpCode::Sign),
        0x30 => Ok(OpCode::And),
        0x31 => Ok(OpCode::Or),
        0x32 => Ok(OpCode::Not),
        0x33 => Ok(OpCode::Nand),
        0x34 => Ok(OpCode::Xor),
        0x35 => Ok(OpCode::ShiftLogicalRight),
        0x36 => Ok(OpCode::ShiftArithRight),
        0x37 => Ok(OpCode::ShiftLogicLeft),
        0x38 => Ok(OpCode::RotateRight),
        0x39 => Ok(OpCode::RotateLeft),
        0x3a => Ok(OpCode::SetBit),
        0x3b => Ok(OpCode::Clear),
        0x3c => Ok(OpCode::Toggle),
        0x3d => Ok(OpCode::Test),
        0x40 => Ok(OpCode::IncFloat),
        0x41 => Ok(OpCode::DecFloat),
        0x42 => Ok(OpCode::AddFloat),
        0x43 => Ok(OpCode::SubFloat),
        0x44 => Ok(OpCode::MulFloat),
        0x45 => Ok(OpCode::DivFloat),
        0x46 => Ok(OpCode::ModFloat),
        0x47 => Ok(OpCode::MaxFloat),
        0x48 => Ok(OpCode::MinFloat),
        0x49 => Ok(OpCode::AbsFloat),
        0x4a => Ok(OpCode::SignFloat),
        0x4b => Ok(OpCode::Sin),
        0x4c => Ok(OpCode::Cos),
        0x4d => Ok(OpCode::Tan),
        0x4e => Ok(OpCode::ArcSin),
        0x4f => Ok(OpCode::ArcCos),
        0x50 => Ok(OpCode::ArcTan),
        0x51 => Ok(OpCode::ArcTan2),
        0x52 => Ok(OpCode::Sqrt),
        0x53 => Ok(OpCode::Pow),
        0x54 => Ok(OpCode::Exp),
        0x55 => Ok(OpCode::Log),
        0x56 => Ok(OpCode::Log2),
        0x57 => Ok(OpCode::Log10),
        0x60 => Ok(OpCode::AddUnsigned),
        0x61 => Ok(OpCode::SubUnsigned),
        0x62 => Ok(OpCode::MulUnsigned),
        0x63 => Ok(OpCode::DivUnsigned),
        0x64 => Ok(OpCode::ModUnsigned),
        0x65 => Ok(OpCode::MaxUnsigned),
        0x66 => Ok(OpCode::MinUnsigned),
        0x70 => Ok(OpCode::Rand),
        0x71 => Ok(OpCode::RSeed),
        0x72 => Ok(OpCode::ItoF),
        0x73 => Ok(OpCode::FtoI),
        0x74 => Ok(OpCode::UtoF),
        0x75 => Ok(OpCode::FtoU),
        _ => Err(Tx8Error::InvalidOpCode(byte)),
    }
}

/// The condition under which a jump is taken, tested on register `r` as a signed number.
#[derive(Clone, Copy, Debug, PartialEq, Eq, Structural)]
pub enum Comparison {
    Always,
    Equal,
    NotEqual,
    Greater,
    GreaterEqual,
    Less,
    LessEqual,
}

/// How an arithmetic instruction interprets its 32-bit carriers.
#[derive(Clone, Copy, Debug, PartialEq, Eq, Structural)]
pub enum Type {
    Signed,
    Unsigned,
    Float,
}

/// A decoded instruction with its operands resolved.
#[derive(Clone, Copy, Debug, PartialEq, Eq, Structural)]
pub enum Instruction {
    Halt,
    Nop,
    Jump(Value, Comparison),
    CompareSigned(Value, Value),
    CompareFloat(Value, Value),
    CompareUnsigned(Value, Value),
    Call(Value),
    SysCall(Value),
    Return,
    Load(Writable, Value),
    Push(Value),
    Pop(Writable),
    Add(Writable, Value, Value, Type),
    Sub(Writable, Value, Value, Type),
    Mul(Writable, Value, Value, Type),
    DivMod(Writable, Value, Value, Type, bool),
    MaxMin(Writable, Value, Value, Type, bool),
    AbsSign(Writable, Value, Type, bool),
    And(Writable, Value, Value),
    Or(Writable, Value, Value),
    Not(Writable, Value),
    Nand(Writable, Value, Value),
    Xor(Writable, Value, Value),
    ShiftLogicalRight(Writable, Value, Value),
    ShiftArithRight(Writable, Value, Value),
    ShiftLogicLeft(Writable, Value, Value),
    RotateRight(Writable, Value, Value),
    RotateLeft(Writable, Value, Value),
    SetBit(Writable, Value, Value),
    Clear(Writable, Value, Value),
    Toggle(Writable, Value, Value),
    Test(Value, Value),
    Sin(Writable, Value),
    Cos(Writable, Value),
    Tan(Writable, Value),
    ArcSin(Writable, Value),
    ArcCos(Writable, Value),
    ArcTan(Writable, Value),
    ArcTan2(Writable, Value, Value),
    Sqrt(Writable, Value),
    Pow(Writable, Value, Value),
    Exp(Writable, Value),
    Log(Writable, Value),
    Log2(Writable, Value),
    Log10(Writable, Value),
    Rand(Writable),
    RSeed(Value),
    ItoF(Writable, Value),
    FtoI(Writable, Value),
    UtoF(Writable, Value),
    FtoU(Writable, Value),
}

/// Opcodes that are followed by no parameter-mode byte.
pub open spec fn takes_no_params(op: OpCode) -> bool {
    op == OpCode::Halt || op == OpCode::Nop || op == OpCode::Return
}

pub open spec fn spec_no_params(op: OpCode) -> Instruction {
    if op == OpCode::Halt {
        Instruction::Halt
    } else if op == OpCode::Nop {
        Instruction::Nop
    } else {
        Instruction::Return
    }
}

/// The opcodes of jumps, comparisons and calls.
pub open spec fn is_control_op(op: OpCode) -> bool {
    matches!(
        op,
        OpCode::Jump
            | OpCode::JumpEqual
            | OpCode::JumpNotEqual
            | OpCode::JumpGreaterThan
            | OpCode::JumpGreaterEqual
            | OpCode::JumpLessThan
            | OpCode::JumpLessEqual
            | OpCode::CompareSigned
            | OpCode::CompareFloat
            | OpCode::CompareUnsigned
            | OpCode::Call
            | OpCode::SysCall
    )
}

/// The opcodes of loads, stores and the stack.
pub open spec fn is_load_op(op: OpCode) -> bool {
    matches!(
        op,
        OpCode::Load
            | OpCode::LoadSigned
            | OpCode::LoadWord
            | OpCode::LoadWordSigned
            | OpCode::LoadA
            | OpCode::StoreA
            | OpCode::LoadB
            | OpCode::StoreB
            | OpCode::LoadC
            | OpCode::StoreC
            | OpCode::LoadD
            | OpCode::StoreD
            | OpCode::Zero
            | OpCode::Push
            | OpCode::Pop
    )
}

/// The opcodes of signed integer arithmetic.
pub open spec fn is_integer_op(op: OpCode) -> bool {
    matches!(
        op,
        OpCode::Inc
            | OpCode::Dec
            | OpCode::Add
            | OpCode::Sub
            | OpCode::Mul
            | OpCode::Div
            | OpCode::Mod
            | OpCode::Max
            | OpCode::Min
            | OpCode::Abs
            | OpCode::Sign
    )
}

/// The opcodes of bitwise, shift and single-bit operations.
pub open spec fn is_bitwise_op(op: OpCode) -> bool {
    matches!(
        op,
        OpCode::And
            | OpCode::Or
            | OpCode::Not
            | OpCode::Nand
            | OpCode::Xor
            | OpCode::ShiftLogicalRight
            | OpCode::ShiftArithRight
            | OpCode::ShiftLogicLeft
            | OpCode::RotateRight
            | OpCode::RotateLeft
            | OpCode::SetBit
            | OpCode::Clear
            | OpCode::Toggle
            | OpCode::Test
    )
}

/// The opcodes of binary32 arithmetic and functions.
pub open spec fn is_float_op(op: OpCode) -> bool {
    matches!(
        op,
        OpCode::IncFloat
            | OpCode::DecFloat
            | OpCode::AddFloat
            | OpCode::SubFloat
            | OpCode::MulFloat
            | OpCode::DivFloat
            | OpCode::ModFloat
            | OpCode::MaxFloat
            | OpCode::MinFloat
            | OpCode::AbsFloat
            | OpCode::SignFloat
            | OpCode::Sin
            | OpCode::Cos
            | OpCode::Tan
            | OpCode::ArcSin
            | OpCode::ArcCos
            | OpCode::ArcTan
            | OpCode::ArcTan2
            | OpCode::Sqrt
            | OpCode::Pow
            | OpCode::Exp
            | OpCode::Log
            | OpCode::Log2
            | OpCode::Log10
    )
}

/// The opcodes of unsigned integer arithmetic.
pub open spec fn is_unsigned_op(op: OpCode) -> bool {
    matches!(
        op,
        OpCode::AddUnsigned
            | OpCode::SubUnsigned
            | OpCode::MulUnsigned
            | OpCode::DivUnsigned
            | OpCode::ModUnsigned
            | OpCode::MaxUnsigned
            | OpCode::MinUnsigned
    )
}

/// The opcodes of the generator and the conversions.
pub open spec fn is_misc_op(op: OpCode) -> bool {
    matches!(
        op,
        OpCode::Rand
            | OpCode::RSeed
            | OpCode::ItoF
            | OpCode::FtoI
            | OpCode::UtoF
            | OpCode::FtoU
    )
}

/// Value of operand `p`, read at width `size` from memory, sign-extended if `signed`.
pub open spec fn spec_resolve(p: Parameter, cpu: Cpu, m: Seq<u8>, size: Size, signed: bool) -> Result<
    Value,
    Tx8Error,
> {
    if signed {
        spec_value_signed(p, cpu, m, size)
    } else {
        spec_value(p, cpu, m, size)
    }
}

/// The first operand as a destination and as a source.
pub open spec fn spec_ops_wv(p1: Parameter, cpu: Cpu, m: Seq<u8>, signed: bool) -> Result<
    (Writable, Value),
    Tx8Error,
> {
    spec_ops_load(p1, p1, cpu, m, Size::Byte, signed)
}

/// The first operand as a destination, the second as a source read at width `size`.
pub open spec fn spec_ops_load(
    p1: Parameter,
    p2: Parameter,
    cpu: Cpu,
    m: Seq<u8>,
    size: Size,
    signed: bool,
) -> Result<(Writable, Value), Tx8Error> {
    match spec_writable(p1) {
        Err(e) => Err(e),
        Ok(w) => match spec_resolve(p2, cpu, m, size, signed) {
            Err(e) => Err(e),
            Ok(a) => Ok((w, a)),
        },
    }
}

/// The first operand as a destination and as a source, the second as a source.
pub open spec fn spec_ops_wvv(p1: Parameter, p2: Parameter, cpu: Cpu, m: Seq<u8>, signed: bool) -> Result<
    (Writable, Value, Value),
    Tx8Error,
> {
    match spec_ops_wv(p1, cpu, m, signed) {
        Err(e) => Err(e),
        Ok((w, a)) => match spec_resolve(p2, cpu, m, Size::Byte, signed) {
            Err(e) => Err(e),
            Ok(b) => Ok((w, a, b)),
        },
    }
}

/// Both operands as sources.
pub open spec fn spec_ops_vv(p1: Parameter, p2: Parameter, cpu: Cpu, m: Seq<u8>) -> Result<
    (Value, Value),
    Tx8Error,
> {
    match spec_value(p1, cpu, m, Size::Byte) {
        Err(e) => Err(e),
        Ok(a) => match spec_value(p2, cpu, m, Size::Byte) {
            Err(e) => Err(e),
            Ok(b) => Ok((a, b)),
        },
    }
}

pub open spec fn then_v(r: Result<Value, Tx8Error>, f: spec_fn(Value) -> Instruction) -> Result<
    Instruction,
    Tx8Error,
> {
    match r {
        Ok(a) => Ok(f(a)),
        Err(e) => Err(e),
    }
}

pub open spec fn then_w(r: Result<Writable, Tx8Error>, f: spec_fn(Writable) -> Instruction) -> Result<
    Instruction,
    Tx8Error,
> {
    match r {
        Ok(w) => Ok(f(w)),
        Err(e) => Err(e),
    }
}

pub open spec fn then_vv(
    r: Result<(Value, Value), Tx8Error>,
    f: spec_fn(Value, Value) -> Instruction,
) -> Result<Instruction, Tx8Error> {
    match r {
        Ok((a, b)) => Ok(f(a, b)),
        Err(e) => Err(e),
    }
}

pub open spec fn then_wv(
    r: Result<(Writable, Value), Tx8Error>,
    f: spec_fn(Writable, Value) -> Instruction,
) -> Result<Instruction, Tx8Error> {
    match r {
        Ok((w, a)) => Ok(f(w, a)),
        Err(e) => Err(e),
    }
}

pub open spec fn then_wvv(
    r: Result<(Writable, Value, Value), Tx8Error>,
    f: spec_fn(Writable, Value, Value) -> Instruction,
) -> Result<Instruction, Tx8Error> {
    match r {
        Ok((w, a, b)) => Ok(f(w, a, b)),
        Err(e) => Err(e),
    }
}

/// The instruction of opcode `op` with raw operands `p1` and `p2`, resolved against the
/// machine state. Operands are resolved left to right; the first failure is the result.
pub open spec fn spec_with_params(op: OpCode, p1: Parameter, p2: Parameter, cpu: Cpu, m: Seq<u8>) -> Result<
    Instruction,
    Tx8Error,
> {
    match op {
        OpCode::Halt => Ok(Instruction::Halt),
        OpCode::Nop => Ok(Instruction::Nop),
        OpCode::Return => Ok(Instruction::Return),
        OpCode::Jump => then_v(
            spec_value(p1, cpu, m, Size::Byte),
            |a: Value| Instruction::Jump(a, Comparison::Always),
        ),
        OpCode::JumpEqual => then_v(
            spec_value(p1, cpu, m, Size::Byte),
            |a: Value| Instruction::Jump(a, Comparison::Equal),
        ),
        OpCode::JumpNotEqual => then_v(
            spec_value(p1, cpu, m, Size::Byte),
            |a: Value| Instruction::Jump(a, Comparison::NotEqual),
        ),
        OpCode::JumpGreaterThan => then_v(
            spec_value(p1, cpu, m, Size::Byte),
            |a: Value| Instruction::Jump(a, Comparison::Greater),
        ),
        OpCode::JumpGreaterEqual => then_v(
            spec_value(p1, cpu, m, Size::Byte),
            |a: Value| Instruction::Jump(a, Comparison::GreaterEqual),
        ),
        OpCode::JumpLessThan => then_v(
            spec_value(p1, cpu, m, Size::Byte),
            |a: Value| Instruction::Jump(a, Comparison::Less),
        ),
        OpCode::JumpLessEqual => then_v(
            spec_value(p1, cpu, m, Size::Byte),
            |a: Value| Instruction::Jump(a, Comparison::LessEqual),
        ),
        OpCode::CompareSigned => then_vv(
            spec_ops_vv(p1, p2, cpu, m),
            |a: Value,
            b: Value| Instruction::CompareSigned(a, b),
        ),
        OpCode::CompareFloat => then_vv(
            spec_ops_vv(p1, p2, cpu, m),
            |a: Value,
            b: Value| Instruction::CompareFloat(a, b),
        ),
        OpCode::CompareUnsigned => then_vv(
            spec_ops_vv(p1, p2, cpu, m),
            |a: Value,
            b: Value| Instruction::CompareUnsigned(a, b),
        ),
        OpCode::Call => then_v(spec_value(p1, cpu, m, Size::Byte), |a: Value| Instruction::Call(a)),
        OpCode::SysCall => then_v(
            spec_value(p1, cpu, m, Size::Byte),
            |a: Value| Instruction::SysCall(a),
        ),
        OpCode::Load => then_wv(
            spec_ops_load(p1, p2, cpu, m, Size::Byte, false),
            |w: Writable,
            a: Value| Instruction::Load(w, a),
        ),
        OpCode::LoadSigned => then_wv(
            spec_ops_load(p1, p2, cpu, m, Size::Byte, true),
            |w: Writable,
            a: Value| Instruction::Load(w, a),
        ),
        OpCode::LoadWord => then_wv(
            spec_ops_load(p1, p2, cpu, m, Size::Int, false),
            |w: Writable,
            a: Value| Instruction::Load(w, a),
        ),
        OpCode::LoadWordSigned => then_wv(
            spec_ops_load(p1, p2, cpu, m, Size::Int, true),
            |w: Writable,
            a: Value| Instruction::Load(w, a),
        ),
        OpCode::LoadA => then_v(
            spec_value(p1, cpu, m, Size::Byte),
            |a: Value| Instruction::Load(Writable::Register(Register(0x0)), a),
        ),
        OpCode::StoreA => then_w(
            spec_writable(p1),
            |w: Writable| Instruction::Load(w, Value { val: cpu.a, size: Size::Int }),
        ),
        OpCode::LoadB => then_v(
            spec_value(p1, cpu, m, Size::Byte),
            |a: Value| Instruction::Load(Writable::Register(Register(0x1)), a),
        ),
        OpCode::StoreB => then_w(
            spec_writable(p1),
            |w: Writable| Instruction::Load(w, Value { val: cpu.b, size: Size::Int }),
        ),
        OpCode::LoadC => then_v(
            spec_value(p1, cpu, m, Size::Byte),
            |a: Value| Instruction::Load(Writable::Register(Register(0x2)), a),
        ),
        OpCode::StoreC => then_w(
            spec_writable(p1),
            |w: Writable| Instruction::Load(w, Value { val: cpu.c, size: Size::Int }),
        ),
        OpCode::LoadD => then_v(
            spec_value(p1, cpu, m, Size::Byte),
            |a: Value| Instruction::Load(Writable::Register(Register(0x3)), a),
        ),
        OpCode::StoreD => then_w(
            spec_writable(p1),
            |w: Writable| Instruction::Load(w, Value { val: cpu.d, size: Size::Int }),
        ),
        OpCode::Zero => then_w(
            spec_writable(p1),
            |w: Writable| Instruction::Load(w, Value { val: 0, size: Size::Int }),
        ),
        OpCode::Push => then_v(spec_value(p1, cpu, m, Size::Byte), |a: Value| Instruction::Push(a)),
        OpCode::Pop => then_w(spec_writable(p1), |w: Writable| Instruction::Pop(w)),
        OpCode::Inc => then_wv(
            spec_ops_wv(p1, cpu, m, false),
            |w: Writable, a: Value| Instruction::Add(w, a, Value { val: 1, size: Size::Int }, Type::Unsigned),
        ),
        OpCode::Dec => then_wv(
            spec_ops_wv(p1, cpu, m, false),
            |w: Writable, a: Value| Instruction::Sub(w, a, Value { val: 1, size: Size::Int }, Type::Unsigned),
        ),
        OpCode::Add => then_wvv(
            spec_ops_wvv(p1, p2, cpu, m, true),
            |w: Writable, a: Value, b: Value| Instruction::Add(w, a, b, Type::Signed),
        ),
        OpCode::Sub => then_wvv(
            spec_ops_wvv(p1, p2, cpu, m, true),
            |w: Writable, a: Value, b: Value| Instruction::Sub(w, a, b, Type::Signed),
        ),
        OpCode::Mul => then_wvv(
            spec_ops_wvv(p1, p2, cpu, m, true),
            |w: Writable, a: Value, b: Value| Instruction::Mul(w, a, b, Type::Signed),
        ),
        OpCode::Div => then_wvv(
            spec_ops_wvv(p1, p2, cpu, m, true),
            |w: Writable, a: Value, b: Value| Instruction::DivMod(w, a, b, Type::Signed, true),
        ),
        OpCode::Mod => then_wvv(
            spec_ops_wvv(p1, p2, cpu, m, true),
            |w: Writable, a: Value, b: Value| Instruction::DivMod(w, a, b, Type::Signed, false),
        ),
        OpCode::Max => then_wvv(
            spec_ops_wvv(p1, p2, cpu, m, true),
            |w: Writable, a: Value, b: Value| Instruction::MaxMin(w, a, b, Type::Signed, true),
        ),
        OpCode::Min => then_wvv(
            spec_ops_wvv(p1, p2, cpu, m, true),
            |w: Writable, a: Value, b: Value| Instruction::MaxMin(w, a, b, Type::Signed, false),
        ),
        OpCode::Abs => then_wv(
            spec_ops_wv(p1, cpu, m, true),
            |w: Writable,
            a: Value| Instruction::AbsSign(w, a, Type::Signed, true),
        ),
        OpCode::Sign => then_wv(
            spec_ops_wv(p1, cpu, m, true),
            |w: Writable,
            a: Value| Instruction::AbsSign(w, a, Type::Signed, false),
        ),
        OpCode::And => then_wvv(
            spec_ops_wvv(p1, p2, cpu, m, false),
            |w: Writable, a: Value, b: Value| Instruction::And(w, a, b),
        ),
        OpCode::Or => then_wvv(
            spec_ops_wvv(p1, p2, cpu, m, false),
            |w: Writable, a: Value, b: Value| Instruction::Or(w, a, b),
        ),
        OpCode::Not => then_wv(
            spec_ops_wv(p1, cpu, m, false),
            |w: Writable,
            a: Value| Instruction::Not(w, a),
        ),
        OpCode::Nand => then_wvv(
            spec_ops_wvv(p1, p2, cpu, m, false),
            |w: Writable, a: Value, b: Value| Instruction::Nand(w, a, b),
        ),
        OpCode::Xor => then_wvv(
            spec_ops_wvv(p1, p2, cpu, m, false),
            |w: Writable, a: Value, b: Value| Instruction::Xor(w, a, b),
        ),
        OpCode::ShiftLogicalRight => then_wvv(
            spec_ops_wvv(p1, p2, cpu, m, false),
            |w: Writable, a: Value, b: Value| Instruction::ShiftLogicalRight(w, a, b),
        ),
        OpCode::ShiftArithRight => then_wvv(
            spec_ops_wvv(p1, p2, cpu, m, false),
            |w: Writable, a: Value, b: Value| Instruction::ShiftArithRight(w, a, b),
        ),
        OpCode::ShiftLogicLeft => then_wvv(
            spec_ops_wvv(p1, p2, cpu, m, false),
            |w: Writable, a: Value, b: Value| Instruction::ShiftLogicLeft(w, a, b),
        ),
        OpCode::RotateRight => then_wvv(
            spec_ops_wvv(p1, p2, cpu, m, false),
            |w: Writable, a: Value, b: Value| Instruction::RotateRight(w, a, b),
        ),
        OpCode::RotateLeft => then_wvv(
            spec_ops_wvv(p1, p2, cpu, m, false),
            |w: Writable, a: Value, b: Value| Instruction::RotateLeft(w, a, b),
        ),
        OpCode::SetBit => then_wvv(
            spec_ops_wvv(p1, p2, cpu, m, false),
            |w: Writable, a: Value, b: Value| Instruction::SetBit(w, a, b),
        ),
        OpCode::Clear => then_wvv(
            spec_ops_wvv(p1, p2, cpu, m, false),
            |w: Writable, a: Value, b: Value| Instruction::Clear(w, a, b),
        ),
        OpCode::Toggle => then_wvv(
            spec_ops_wvv(p1, p2, cpu, m, false),
            |w: Writable, a: Value, b: Value| Instruction::Toggle(w, a, b),
        ),
        OpCode::Test => then_vv(
            spec_ops_vv(p1, p2, cpu, m),
            |a: Value,
            b: Value| Instruction::Test(a, b),
        ),
        OpCode::IncFloat => then_wv(
            spec_ops_wv(p1, cpu, m, false),
            |w: Writable, a: Value| Instruction::Add(w, a, Value { val: FLOAT_PLUS_ONE, size: Size::Int }, Type::Float),
        ),
        OpCode::DecFloat => then_wv(
            spec_ops_wv(p1, cpu, m, false),
            |w: Writable, a: Value| Instruction::Sub(w, a, Value { val: FLOAT_PLUS_ONE, size: Size::Int }, Type::Float),
        ),
        OpCode::AddFloat => then_wvv(
            spec_ops_wvv(p1, p2, cpu, m, false),
            |w: Writable, a: Value, b: Value| Instruction::Add(w, a, b, Type::Float),
        ),
        OpCode::SubFloat => then_wvv(
            spec_ops_wvv(p1, p2, cpu, m, false),
            |w: Writable, a: Value, b: Value| Instruction::Sub(w, a, b, Type::Float),
        ),
        OpCode::MulFloat => then_wvv(
            spec_ops_wvv(p1, p2, cpu, m, false),
            |w: Writable, a: Value, b: Value| Instruction::Mul(w, a, b, Type::Float),
        ),
        OpCode::DivFloat => then_wvv(
            spec_ops_wvv(p1, p2, cpu, m, false),
            |w: Writable, a: Value, b: Value| Instruction::DivMod(w, a, b, Type::Float, true),
        ),
        OpCode::ModFloat => then_wvv(
            spec_ops_wvv(p1, p2, cpu, m, false),
            |w: Writable, a: Value, b: Value| Instruction::DivMod(w, a, b, Type::Float, false),
        ),
        OpCode::MaxFloat => then_wvv(
            spec_ops_wvv(p1, p2, cpu, m, false),
            |w: Writable, a: Value, b: Value| Instruction::MaxMin(w, a, b, Type::Float, true),
        ),
        OpCode::MinFloat => then_wvv(
            spec_ops_wvv(p1, p2, cpu, m, false),
            |w: Writable, a: Value, b: Value| Instruction::MaxMin(w, a, b, Type::Float, false),
        ),
        OpCode::AbsFloat => then_wv(
            spec_ops_wv(p1, cpu, m, false),
            |w: Writable,
            a: Value| Instruction::AbsSign(w, a, Type::Float, true),
        ),
        OpCode::SignFloat => then_wv(
            spec_ops_wv(p1, cpu, m, false),
            |w: Writable,
            a: Value| Instruction::AbsSign(w, a, Type::Float, false),
        ),
        OpCode::Sin => then_wv(
            spec_ops_wv(p1, cpu, m, false),
            |w: Writable,
            a: Value| Instruction::Sin(w, a),
        ),
        OpCode::Cos => then_wv(
            spec_ops_wv(p1, cpu, m, false),
            |w: Writable,
            a: Value| Instruction::Cos(w, a),
        ),
        OpCode::Tan => then_wv(
            spec_ops_wv(p1, cpu, m, false),
            |w: Writable,
            a: Value| Instruction::Tan(w, a),
        ),
        OpCode::ArcSin => then_wv(
            spec_ops_wv(p1, cpu, m, false),
            |w: Writable,
            a: Value| Instruction::ArcSin(w, a),
        ),
        OpCode::ArcCos => then_wv(
            spec_ops_wv(p1, cpu, m, false),
            |w: Writable,
            a: Value| Instruction::ArcCos(w, a),
        ),
        OpCode::ArcTan => then_wv(
            spec_ops_wv(p1, cpu, m, false),
            |w: Writable,
            a: Value| Instruction::ArcTan(w, a),
        ),
        OpCode::ArcTan2 => then_wvv(
            spec_ops_wvv(p1, p2, cpu, m, false),
            |w: Writable, a: Value, b: Value| Instruction::ArcTan2(w, a, b),
        ),
        OpCode::Sqrt => then_wv(
            spec_ops_wv(p1, cpu, m, false),
            |w: Writable,
            a: Value| Instruction::Sqrt(w, a),
        ),
        OpCode::Pow => then_wvv(
            spec_ops_wvv(p1, p2, cpu, m, false),
            |w: Writable, a: Value, b: Value| Instruction::Pow(w, a, b),
        ),
        OpCode::Exp => then_wv(
            spec_ops_wv(p1, cpu, m, false),
            |w: Writable,
            a: Value| Instruction::Exp(w, a),
        ),
        OpCode::Log => then_wv(
            spec_ops_wv(p1, cpu, m, false),
            |w: Writable,
            a: Value| Instruction::Log(w, a),
        ),
        OpCode::Log2 => then_wv(
            spec_ops_wv(p1, cpu, m, false),
            |w: Writable,
            a: Value| Instruction::Log2(w, a),
        ),
        OpCode::Log10 => then_wv(
            spec_ops_wv(p1, cpu, m, false),
            |w: Writable,
            a: Value| Instruction::Log10(w, a),
        ),
        OpCode::AddUnsigned => then_wvv(
            spec_ops_wvv(p1, p2, cpu, m, false),
            |w: Writable, a: Value, b: Value| Instruction::Add(w, a, b, Type::Unsigned),
        ),
        OpCode::SubUnsigned => then_wvv(
            spec_ops_wvv(p1, p2, cpu, m, false),
            |w: Writable, a: Value, b: Value| Instruction::Sub(w, a, b, Type::Unsigned),
        ),
        OpCode::MulUnsigned => then_wvv(
            spec_ops_wvv(p1, p2, cpu, m, false),
            |w: Writable, a: Value, b: Value| Instruction::Mul(w, a, b, Type::Unsigned),
        ),
        OpCode::DivUnsigned => then_wvv(
            spec_ops_wvv(p1, p2, cpu, m, false),
            |w: Writable, a: Value, b: Value| Instruction::DivMod(w, a, b, Type::Unsigned, true),
        ),
        OpCode::ModUnsigned => then_wvv(
            spec_ops_wvv(p1, p2, cpu, m, false),
            |w: Writable, a: Value, b: Value| Instruction::DivMod(w, a, b, Type::Unsigned, false),
        ),
        OpCode::MaxUnsigned => then_wvv(
            spec_ops_wvv(p1, p2, cpu, m, false),
            |w: Writable, a: Value, b: Value| Instruction::MaxMin(w, a, b, Type::Unsigned, true),
        ),
        OpCode::MinUnsigned => then_wvv(
            spec_ops_wvv(p1, p2, cpu, m, false),
            |w: Writable, a: Value, b: Value| Instruction::MaxMin(w, a, b, Type::Unsigned, false),
        ),
        OpCode::Rand => then_w(spec_writable(p1), |w: Writable| Instruction::Rand(w)),
        OpCode::RSeed => then_v(
            spec_value(p1, cpu, m, Size::Byte),
            |a: Value| Instruction::RSeed(a),
        ),
        OpCode::ItoF => then_wv(
            spec_ops_wv(p1, cpu, m, true),
            |w: Writable,
            a: Value| Instruction::ItoF(w, a),
        ),
        OpCode::FtoI => then_wv(
            spec_ops_wv(p1, cpu, m, false),
            |w: Writable,
            a: Value| Instruction::FtoI(w, a),
        ),
        OpCode::UtoF => then_wv(
            spec_ops_wv(p1, cpu, m, false),
            |w: Writable,
            a: Value| Instruction::UtoF(w, a),
        ),
        OpCode::FtoU => then_wv(
            spec_ops_wv(p1, cpu, m, false),
            |w: Writable,
            a: Value| Instruction::FtoU(w, a),
        ),
    }
}

/// Length of the instruction at `ptr` as its encoding states it: the opcode byte, then for
/// an instruction with operands the parameter-mode byte and each operand's bytes.
pub open spec fn encoded_length(m: Seq<u8>, ptr: u32) -> int {
    let op = spec_op_code(spec_read_byte(m, ptr));
    if op is Ok && takes_no_params(op->Ok_0) {
        1
    } else {
        let modes = spec_read_byte(m, (ptr + 1) as u32);
        (2 + footprint(spec_par_mode(modes / 16)->Ok_0) + footprint(spec_par_mode(modes % 16)->Ok_0)) as int
    }
}

/// The instruction at `ptr` and its length.
pub open spec fn spec_decode(cpu: Cpu, m: Seq<u8>, ptr: u32) -> Result<(Instruction, u32), Tx8Error> {
    if ptr > MAX_DECODE_ADDRESS {
        Err(Tx8Error::InstructionError)
    } else {
        match spec_op_code(spec_read_byte(m, ptr)) {
            Err(e) => Err(e),
            Ok(op) => if takes_no_params(op) {
                Ok((spec_no_params(op), 1))
            } else {
                let modes = spec_read_byte(m, (ptr + 1) as u32);
                match spec_par_mode(modes / 16) {
                    Err(e) => Err(e),
                    Ok(m1) => match spec_par_mode(modes % 16) {
                        Err(e) => Err(e),
                        Ok(m2) => {
                            let p1 = spec_parameter(m, (ptr + 2) as u32, m1);
                            let p2 = spec_parameter(m, (ptr + 2 + footprint(m1)) as u32, m2);
                            match spec_with_params(op, p1, p2, cpu, m) {
                                Err(e) => Err(e),
                                Ok(i) => Ok((i, (2 + footprint(m1) + footprint(m2)) as u32)),
                            }
                        },
                    },
                }
            },
        }
    }
}

/// Whether the driver moves the program counter past the instruction after executing it;
/// the instructions that set it themselves do not.
pub open spec fn spec_advances(i: Instruction) -> bool {
    match i {
        Instruction::Halt => false,
        Instruction::Jump(_, _) => false,
        Instruction::Call(_) => false,
        Instruction::Return => false,
        _ => true,
    }
}

fn resolve(p: Parameter, cpu: &Cpu, mem: &Memory, size: Size, signed: bool) -> (r: Result<
    Value,
    Tx8Error,
>)
    requires
        mem.wf(),
    ensures
        r == spec_resolve(p, *cpu, mem@, size, signed),
{
    if signed {
        Value::from_par_signed(p, cpu, mem, size)
    } else {
        Value::from_par(p, cpu, mem, size)
    }
}

fn ops_load(p1: Parameter, p2: Parameter, cpu: &Cpu, mem: &Memory, size: Size, signed: bool) -> (r:
    Result<(Writable, Value), Tx8Error>)
    requires
        mem.wf(),
    ensures
        r == spec_ops_load(p1, p2, *cpu, mem@, size, signed),
{
    let w = Writable::from_par(p1)?;
    let a = resolve(p2, cpu, mem, size, signed)?;
    Ok((w, a))
}

fn ops_wv(p1: Parameter, cpu: &Cpu, mem: &Memory, signed: bool) -> (r: Result<
    (Writable, Value),
    Tx8Error,
>)
    requires
        mem.wf(),
    ensures
        r == spec_ops_wv(p1, *cpu, mem@, signed),
{
    ops_load(p1, p1, cpu, mem, Size::Byte, signed)
}

fn ops_wvv(p1: Parameter, p2: Parameter, cpu: &Cpu, mem: &Memory, signed: bool) -> (r: Result<
    (Writable, Value, Value),
    Tx8Error,
>)
    requires
        mem.wf(),
    ensures
        r == spec_ops_wvv(p1, p2, *cpu, mem@, signed),
{
    let (w, a) = ops_wv(p1, cpu, mem, signed)?;
    let b = resolve(p2, cpu, mem, Size::Byte, signed)?;
    Ok((w, a, b))
}

fn ops_vv(p1: Parameter, p2: Parameter, cpu: &Cpu, mem: &Memory) -> (r: Result<
    (Value, Value),
    Tx8Error,
>)
    requires
        mem.wf(),
    ensures
        r == spec_ops_vv(p1, p2, *cpu, mem@),
{
    let a = Value::from_par(p1, cpu, mem, Size::Byte)?;
    let b = Value::from_par(p2, cpu, mem, Size::Byte)?;
    Ok((a, b))
}

impl Instruction {
    fn no_params(op: OpCode) -> (i: Instruction)
        requires
            takes_no_params(op),
        ensures
            i == spec_no_params(op),
    {
        match op {
            OpCode::Halt => Instruction::Halt,
            OpCode::Nop => Instruction::Nop,
            _ => Instruction::Return,
        }
    }

    fn with_params(op_code: OpCode, p1: Parameter, p2: Parameter, cpu: &Cpu, mem: &Memory) -> (r:
        Result<Self, Tx8Error>)
        requires
            mem.wf(),
        ensures
            r == spec_with_params(op_code, p1, p2, *cpu, mem@),
    {
        match op_code {
            OpCode::Halt => Ok(Instruction::Halt),
            OpCode::Nop => Ok(Instruction::Nop),
            OpCode::Return => Ok(Instruction::Return),
            OpCode::Jump
            | OpCode::JumpEqual
            | OpCode::JumpNotEqual
            | OpCode::JumpGreaterThan
            | OpCode::JumpGreaterEqual
            | OpCode::JumpLessThan
            | OpCode::JumpLessEqual
            | OpCode::CompareSigned
            | OpCode::CompareFloat
            | OpCode::CompareUnsigned
            | OpCode::Call
            | OpCode::SysCall => Self::with_params_control(
                op_code,
                p1,
                p2,
                cpu,
                mem,
            ),
            OpCode::Load
            | OpCode::LoadSigned
            | OpCode::LoadWord
            | OpCode::LoadWordSigned
            | OpCode::LoadA
            | OpCode::StoreA
            | OpCode::LoadB
            | OpCode::StoreB
            | OpCode::LoadC
            | OpCode::StoreC
            | OpCode::LoadD
            | OpCode::StoreD
            | OpCode::Zero
            | OpCode::Push
            | OpCode::Pop => Self::with_params_load(
                op_code,
                p1,
                p2,
                cpu,
                mem,
            ),
            OpCode::Inc
            | OpCode::Dec
            | OpCode::Add
            | OpCode::Sub
            | OpCode::Mul
            | OpCode::Div
            | OpCode::Mod
            | OpCode::Max
            | OpCode::Min
            | OpCode::Abs
            | OpCode::Sign => Self::with_params_integer(
                op_code,
                p1,
                p2,
                cpu,
                mem,
            ),
            OpCode::And
            | OpCode::Or
            | OpCode::Not
            | OpCode::Nand
            | OpCode::Xor
            | OpCode::ShiftLogicalRight
            | OpCode::ShiftArithRight
            | OpCode::ShiftLogicLeft
            | OpCode::RotateRight
            | OpCode::RotateLeft
            | OpCode::SetBit
            | OpCode::Clear
            | OpCode::Toggle
            | OpCode::Test => Self::with_params_bitwise(
                op_code,
                p1,
                p2,
                cpu,
                mem,
            ),
            OpCode::IncFloat
            | OpCode::DecFloat
            | OpCode::AddFloat
            | OpCode::SubFloat
            | OpCode::MulFloat
            | OpCode::DivFloat
            | OpCode::ModFloat
            | OpCode::MaxFloat
            | OpCode::MinFloat
            | OpCode::AbsFloat
            | OpCode::SignFloat
            | OpCode::Sin
            | OpCode::Cos
            | OpCode::Tan
            | OpCode::ArcSin
            | OpCode::ArcCos
            | OpCode::ArcTan
            | OpCode::ArcTan2
            | OpCode::Sqrt
            | OpCode::Pow
            | OpCode::Exp
            | OpCode::Log
            | OpCode::Log2
            | OpCode::Log10 => Self::with_params_float(
                op_code,
                p1,
                p2,
                cpu,
                mem,
            ),
            OpCode::AddUnsigned
            | OpCode::SubUnsigned
            | OpCode::MulUnsigned
            | OpCode::DivUnsigned
            | OpCode::ModUnsigned
            | OpCode::MaxUnsigned
            | OpCode::MinUnsigned => Self::with_params_unsigned(
                op_code,
                p1,
                p2,
                cpu,
                mem,
            ),
            OpCode::Rand
            | OpCode::RSeed
            | OpCode::ItoF
            | OpCode::FtoI
            | OpCode::UtoF
            | OpCode::FtoU => Self::with_params_misc(
                op_code,
                p1,
                p2,
                cpu,
                mem,
            ),
        }
    }

    fn with_params_control(op_code: OpCode, p1: Parameter, p2: Parameter, cpu: &Cpu, mem: &Memory) -> (r:
        Result<Self, Tx8Error>)
        requires
            mem.wf(),
            is_control_op(op_code),
        ensures
            r == spec_with_params(op_code, p1, p2, *cpu, mem@),
    {
        Ok(match op_code {
            OpCode::Jump => Instruction::Jump(
                Value::from_par(p1, cpu, mem, Size::Byte)?,
                Comparison::Always,
            ),
            OpCode::JumpEqual => Instruction::Jump(
                Value::from_par(p1, cpu, mem, Size::Byte)?,
                Comparison::Equal,
            ),
            OpCode::JumpNotEqual => Instruction::Jump(
                Value::from_par(p1, cpu, mem, Size::Byte)?,
                Comparison::NotEqual,
            ),
            OpCode::JumpGreaterThan => Instruction::Jump(
                Value::from_par(p1, cpu, mem, Size::Byte)?,
                Comparison::Greater,
            ),
            OpCode::JumpGreaterEqual => Instruction::Jump(
                Value::from_par(p1, cpu, mem, Size::Byte)?,
                Comparison::GreaterEqual,
            ),
            OpCode::JumpLessThan => Instruction::Jump(
                Value::from_par(p1, cpu, mem, Size::Byte)?,
                Comparison::Less,
            ),
            OpCode::JumpLessEqual => Instruction::Jump(
                Value::from_par(p1, cpu, mem, Size::Byte)?,
                Comparison::LessEqual,
            ),
            OpCode::CompareSigned => {
                let (a, b) = ops_vv(p1, p2, cpu, mem)?;
                Instruction::CompareSigned(a, b)
            },
            OpCode::CompareFloat => {
                let (a, b) = ops_vv(p1, p2, cpu, mem)?;
                Instruction::CompareFloat(a, b)
            },
            OpCode::CompareUnsigned => {
                let (a, b) = ops_vv(p1, p2, cpu, mem)?;
                Instruction::CompareUnsigned(a, b)
            },
            OpCode::Call => Instruction::Call(Value::from_par(p1, cpu, mem, Size::Byte)?),
            OpCode::SysCall => Instruction::SysCall(Value::from_par(p1, cpu, mem, Size::Byte)?),
            // not reached: the precondition names the opcodes above
            _ => Instruction::Nop,
        })
    }

    fn with_params_load(op_code: OpCode, p1: Parameter, p2: Parameter, cpu: &Cpu, mem: &Memory) -> (r:
        Result<Self, Tx8Error>)
        requires
            mem.wf(),
            is_load_op(op_code),
        ensures
            r == spec_with_params(op_code, p1, p2, *cpu, mem@),
    {
        Ok(match op_code {
            OpCode::Load => {
                let (w, a) = ops_load(p1, p2, cpu, mem, Size::Byte, false)?;
                Instruction::Load(w, a)
            },
            OpCode::LoadSigned => {
                let (w, a) = ops_load(p1, p2, cpu, mem, Size::Byte, true)?;
                Instruction::Load(w, a)
            },
            OpCode::LoadWord => {
                let (w, a) = ops_load(p1, p2, cpu, mem, Size::Int, false)?;
                Instruction::Load(w, a)
            },
            OpCode::LoadWordSigned => {
                let (w, a) = ops_load(p1, p2, cpu, mem, Size::Int, true)?;
                Instruction::Load(w, a)
            },
            OpCode::LoadA => Instruction::Load(
                Writable::Register(Register(0x0)),
                Value::from_par(p1, cpu, mem, Size::Byte)?,
            ),
            OpCode::StoreA => Instruction::Load(
                Writable::from_par(p1)?,
                Value::new(cpu.a, Size::Int),
            ),
            OpCode::LoadB => Instruction::Load(
                Writable::Register(Register(0x1)),
                Value::from_par(p1, cpu, mem, Size::Byte)?,
            ),
            OpCode::StoreB => Instruction::Load(
                Writable::from_par(p1)?,
                Value::new(cpu.b, Size::Int),
            ),
            OpCode::LoadC => Instruction::Load(
                Writable::Register(Register(0x2)),
                Value::from_par(p1, cpu, mem, Size::Byte)?,
            ),
            OpCode::StoreC => Instruction::Load(
                Writable::from_par(p1)?,
                Value::new(cpu.c, Size::Int),
            ),
            OpCode::LoadD => Instruction::Load(
                Writable::Register(Register(0x3)),
                Value::from_par(p1, cpu, mem, Size::Byte)?,
            ),
            OpCode::StoreD => Instruction::Load(
                Writable::from_par(p1)?,
                Value::new(cpu.d, Size::Int),
            ),
            OpCode::Zero => Instruction::Load(Writable::from_par(p1)?, Value::new(0, Size::Int)),
            OpCode::Push => Instruction::Push(Value::from_par(p1, cpu, mem, Size::Byte)?),
            OpCode::Pop => Instruction::Pop(Writable::from_par(p1)?),
            // not reached: the precondition names the opcodes above
            _ => Instruction::Nop,
        })
    }

    fn with_params_integer(op_code: OpCode, p1: Parameter, p2: Parameter, cpu: &Cpu, mem: &Memory) -> (r:
        Result<Self, Tx8Error>)
        requires
            mem.wf(),
            is_integer_op(op_code),
        ensures
            r == spec_with_params(op_code, p1, p2, *cpu, mem@),
    {
        Ok(match op_code {
            OpCode::Inc => {
                let (w, a) = ops_wv(p1, cpu, mem, false)?;
                Instruction::Add(w, a, Value::new(1, Size::Int), Type::Unsigned)
            },
            OpCode::Dec => {
                let (w, a) = ops_wv(p1, cpu, mem, false)?;
                Instruction::Sub(w, a, Value::new(1, Size::Int), Type::Unsigned)
            },
            OpCode::Add => {
                let (w, a, b) = ops_wvv(p1, p2, cpu, mem, true)?;
                Instruction::Add(w, a, b, Type::Signed)
            },
            OpCode::Sub => {
                let (w, a, b) = ops_wvv(p1, p2, cpu, mem, true)?;
                Instruction::Sub(w, a, b, Type::Signed)
            },
            OpCode::Mul => {
                let (w, a, b) = ops_wvv(p1, p2, cpu, mem, true)?;
                Instruction::Mul(w, a, b, Type::Signed)
            },
            OpCode::Div => {
                let (w, a, b) = ops_wvv(p1, p2, cpu, mem, true)?;
                Instruction::DivMod(w, a, b, Type::Signed, true)
            },
            OpCode::Mod => {
                let (w, a, b) = ops_wvv(p1, p2, cpu, mem, true)?;
                Instruction::DivMod(w, a, b, Type::Signed, false)
            },
            OpCode::Max => {
                let (w, a, b) = ops_wvv(p1, p2, cpu, mem, true)?;
                Instruction::MaxMin(w, a, b, Type::Signed, true)
            },
            OpCode::Min => {
                let (w, a, b) = ops_wvv(p1, p2, cpu, mem, true)?;
                Instruction::MaxMin(w, a, b, Type::Signed, false)
            },
            OpCode::Abs => {
                let (w, a) = ops_wv(p1, cpu, mem, true)?;
                Instruction::AbsSign(w, a, Type::Signed, true)
            },
            OpCode::Sign => {
                let (w, a) = ops_wv(p1, cpu, mem, true)?;
                Instruction::AbsSign(w, a, Type::Signed, false)
            },
            // not reached: the precondition names the opcodes above
            _ => Instruction::Nop,
        })
    }

    fn with_params_bitwise(op_code: OpCode, p1: Parameter, p2: Parameter, cpu: &Cpu, mem: &Memory) -> (r:
        Result<Self, Tx8Error>)
        requires
            mem.wf(),
            is_bitwise_op(op_code),
        ensures
            r == spec_with_params(op_code, p1, p2, *cpu, mem@),
    {
        Ok(match op_code {
            OpCode::And => {
                let (w, a, b) = ops_wvv(p1, p2, cpu, mem, false)?;
                Instruction::And(w, a, b)
            },
            OpCode::Or => {
                let (w, a, b) = ops_wvv(p1, p2, cpu, mem, false)?;
                Instruction::Or(w, a, b)
            },
            OpCode::Not => {
                let (w, a) = ops_wv(p1, cpu, mem, false)?;
                Instruction::Not(w, a)
            },
            OpCode::Nand => {
                let (w, a, b) = ops_wvv(p1, p2, cpu, mem, false)?;
                Instruction::Nand(w, a, b)
            },
            OpCode::Xor => {
                let (w, a, b) = ops_wvv(p1, p2, cpu, mem, false)?;
                Instruction::Xor(w, a, b)
            },
            OpCode::ShiftLogicalRight => {
                let (w, a, b) = ops_wvv(p1, p2, cpu, mem, false)?;
                Instruction::ShiftLogicalRight(w, a, b)
            },
            OpCode::ShiftArithRight => {
                let (w, a, b) = ops_wvv(p1, p2, cpu, mem, false)?;
                Instruction::ShiftArithRight(w, a, b)
            },
            OpCode::ShiftLogicLeft => {
                let (w, a, b) = ops_wvv(p1, p2, cpu, mem, false)?;
                Instruction::ShiftLogicLeft(w, a, b)
            },
            OpCode::RotateRight => {
                let (w, a, b) = ops_wvv(p1, p2, cpu, mem, false)?;
                Instruction::RotateRight(w, a, b)
            },
            OpCode::RotateLeft => {
                let (w, a, b) = ops_wvv(p1, p2, cpu, mem, false)?;
                Instruction::RotateLeft(w, a, b)
            },
            OpCode::SetBit => {
                let (w, a, b) = ops_wvv(p1, p2, cpu, mem, false)?;
                Instruction::SetBit(w, a, b)
            },
            OpCode::Clear => {
                let (w, a, b) = ops_wvv(p1, p2, cpu, mem, false)?;
                Instruction::Clear(w, a, b)
            },
            OpCode::Toggle => {
                let (w, a, b) = ops_wvv(p1, p2, cpu, mem, false)?;
                Instruction::Toggle(w, a, b)
            },
            OpCode::Test => {
                let (a, b) = ops_vv(p1, p2, cpu, mem)?;
                Instruction::Test(a, b)
            },
            // not reached: the precondition names the opcodes above
            _ => Instruction::Nop,
        })
    }

    fn with_params_float(op_code: OpCode, p1: Parameter, p2: Parameter, cpu: &Cpu, mem: &Memory) -> (r:
        Result<Self, Tx8Error>)
        requires
            mem.wf(),
            is_float_op(op_code),
        ensures
            r == spec_with_params(op_code, p1, p2, *cpu, mem@),
    {
        Ok(match op_code {
            OpCode::IncFloat => {
                let (w, a) = ops_wv(p1, cpu, mem, false)?;
                Instruction::Add(w, a, Value::new(FLOAT_PLUS_ONE, Size::Int), Type::Float)
            },
            OpCode::DecFloat => {
                let (w, a) = ops_wv(p1, cpu, mem, false)?;
                Instruction::Sub(w, a, Value::new(FLOAT_PLUS_ONE, Size::Int), Type::Float)
            },
            OpCode::AddFloat => {
                let (w, a, b) = ops_wvv(p1, p2, cpu, mem, false)?;
                Instruction::Add(w, a, b, Type::Float)
            },
            OpCode::SubFloat => {
                let (w, a, b) = ops_wvv(p1, p2, cpu, mem, false)?;
                Instruction::Sub(w, a, b, Type::Float)
            },
            OpCode::MulFloat => {
                let (w, a, b) = ops_wvv(p1, p2, cpu, mem, false)?;
                Instruction::Mul(w, a, b, Type::Float)
            },
            OpCode::DivFloat => {
                let (w, a, b) = ops_wvv(p1, p2, cpu, mem, false)?;
                Instruction::DivMod(w, a, b, Type::Float, true)
            },
            OpCode::ModFloat => {
                let (w, a, b) = ops_wvv(p1, p2, cpu, mem, false)?;
                Instruction::DivMod(w, a, b, Type::Float, false)
            },
            OpCode::MaxFloat => {
                let (w, a, b) = ops_wvv(p1, p2, cpu, mem, false)?;
                Instruction::MaxMin(w, a, b, Type::Float, true)
            },
            OpCode::MinFloat => {
                let (w, a, b) = ops_wvv(p1, p2, cpu, mem, false)?;
                Instruction::MaxMin(w, a, b, Type::Float, false)
            },
            OpCode::AbsFloat => {
                let (w, a) = ops_wv(p1, cpu, mem, false)?;
                Instruction::AbsSign(w, a, Type::Float, true)
            },
            OpCode::SignFloat => {
                let (w, a) = ops_wv(p1, cpu, mem, false)?;
                Instruction::AbsSign(w, a, Type::Float, false)
            },
            OpCode::Sin => {
                let (w, a) = ops_wv(p1, cpu, mem, false)?;
                Instruction::Sin(w, a)
            },
            OpCode::Cos => {
                let (w, a) = ops_wv(p1, cpu, mem, false)?;
                Instruction::Cos(w, a)
            },
            OpCode::Tan => {
                let (w, a) = ops_wv(p1, cpu, mem, false)?;
                Instruction::Tan(w, a)
            },
            OpCode::ArcSin => {
                let (w, a) = ops_wv(p1, cpu, mem, false)?;
                Instruction::ArcSin(w, a)
            },
            OpCode::ArcCos => {
                let (w, a) = ops_wv(p1, cpu, mem, false)?;
                Instruction::ArcCos(w, a)
            },
            OpCode::ArcTan => {
                let (w, a) = ops_wv(p1, cpu, mem, false)?;
                Instruction::ArcTan(w, a)
            },
            OpCode::ArcTan2 => {
                let (w, a, b) = ops_wvv(p1, p2, cpu, mem, false)?;
                Instruction::ArcTan2(w, a, b)
            },
            OpCode::Sqrt => {
                let (w, a) = ops_wv(p1, cpu, mem, false)?;
                Instruction::Sqrt(w, a)
            },
            OpCode::Pow => {
                let (w, a, b) = ops_wvv(p1, p2, cpu, mem, false)?;
                Instruction::Pow(w, a, b)
            },
            OpCode::Exp => {
                let (w, a) = ops_wv(p1, cpu, mem, false)?;
                Instruction::Exp(w, a)
            },
            OpCode::Log => {
                let (w, a) = ops_wv(p1, cpu, mem, false)?;
                Instruction::Log(w, a)
            },
            OpCode::Log2 => {
                let (w, a) = ops_wv(p1, cpu, mem, false)?;
                Instruction::Log2(w, a)
            },
            OpCode::Log10 => {
                let (w, a) = ops_wv(p1, cpu, mem, false)?;
                Instruction::Log10(w, a)
            },
            // not reached: the precondition names the opcodes above
            _ => Instruction::Nop,
        })
    }

    fn with_params_unsigned(op_code: OpCode, p1: Parameter, p2: Parameter, cpu: &Cpu, mem: &Memory) -> (r:
        Result<Self, Tx8Error>)
        requires
            mem.wf(),
            is_unsigned_op(op_code),
        ensures
            r == spec_with_params(op_code, p1, p2, *cpu, mem@),
    {
        Ok(match op_code {
            OpCode::AddUnsigned => {
                let (w, a, b) = ops_wvv(p1, p2, cpu, mem, false)?;
                Instruction::Add(w, a, b, Type::Unsigned)
            },
            OpCode::SubUnsigned => {
                let (w, a, b) = ops_wvv(p1, p2, cpu, mem, false)?;
                Instruction::Sub(w, a, b, Type::Unsigned)
            },
            OpCode::MulUnsigned => {
                let (w, a, b) = ops_wvv(p1, p2, cpu, mem, false)?;
                Instruction::Mul(w, a, b, Type::Unsigned)
            },
            OpCode::DivUnsigned => {
                let (w, a, b) = ops_wvv(p1, p2, cpu, mem, false)?;
                Instruction::DivMod(w, a, b, Type::Unsigned, true)
            },
            OpCode::ModUnsigned => {
                let (w, a, b) = ops_wvv(p1, p2, cpu, mem, false)?;
                Instruction::DivMod(w, a, b, Type::Unsigned, false)
            },
            OpCode::MaxUnsigned => {
                let (w, a, b) = ops_wvv(p1, p2, cpu, mem, false)?;
                Instruction::MaxMin(w, a, b, Type::Unsigned, true)
            },
            OpCode::MinUnsigned => {
                let (w, a, b) = ops_wvv(p1, p2, cpu, mem, false)?;
                Instruction::MaxMin(w, a, b, Type::Unsigned, false)
            },
            // not reached: the precondition names the opcodes above
            _ => Instruction::Nop,
        })
    }

    fn with_params_misc(op_code: OpCode, p1: Parameter, p2: Parameter, cpu: &Cpu, mem: &Memory) -> (r:
        Result<Self, Tx8Error>)
        requires
            mem.wf(),
            is_misc_op(op_code),
        ensures
            r == spec_with_params(op_code, p1, p2, *cpu, mem@),
    {
        Ok(match op_code {
            OpCode::Rand => Instruction::Rand(Writable::from_par(p1)?),
            OpCode::RSeed => Instruction::RSeed(Value::from_par(p1, cpu, mem, Size::Byte)?),
            OpCode::ItoF => {
                let (w, a) = ops_wv(p1, cpu, mem, true)?;
                Instruction::ItoF(w, a)
            },
            OpCode::FtoI => {
                let (w, a) = ops_wv(p1, cpu, mem, false)?;
                Instruction::FtoI(w, a)
            },
            OpCode::UtoF => {
                let (w, a) = ops_wv(p1, cpu, mem, false)?;
                Instruction::UtoF(w, a)
            },
            OpCode::FtoU => {
                let (w, a) = ops_wv(p1, cpu, mem, false)?;
                Instruction::FtoU(w, a)
            },
            // not reached: the precondition names the opcodes above
            _ => Instruction::Nop,
        })
    }

    pub fn increase_program_counter(&self) -> (b: bool)
        ensures
            b == spec_advances(*self),
    {
        match self {
            Instruction::Halt => false,
            Instruction::Jump(_, _) => false,
            Instruction::Call(_) => false,
            Instruction::Return => false,
            _ => true,
        }
    }
}

/// Decodes the instruction at `ptr`: its opcode, its parameter-mode byte and its operands,
/// which are resolved against `cpu` and `mem`. Also gives the number of bytes it occupies.
pub fn parse_instruction(cpu: &Cpu, mem: &Memory, ptr: u32) -> (r: Result<(Instruction, u32), Tx8Error>)
    requires
        mem.wf(),
    ensures
        r == spec_decode(*cpu, mem@, ptr),
        r matches Ok((_, len)) ==> len == encoded_length(mem@, ptr),
{
    if ptr > MAX_DECODE_ADDRESS {
        return Err(Tx8Error::InstructionError);
    }
    let op_code = parse_op_code(mem.read_byte(ptr))?;
    match op_code {
        OpCode::Halt | OpCode::Nop | OpCode::Return => {
            return Ok((Instruction::no_params(op_code), 1));
        },
        _ => {},
    }
    let modes = mem.read_byte(ptr + 1);
    let first_mode = parse_par_mode(modes / 16)?;
    let second_mode = parse_par_mode(modes % 16)?;
    let (first, first_len) = parse_parameter(mem, ptr + 2, first_mode);
    let (second, second_len) = parse_parameter(mem, ptr + 2 + first_len, second_mode);
    let instruction = Instruction::with_params(op_code, first, second, cpu, mem)?;
    Ok((instruction, 2 + first_len + second_len))
}


/// Maps an opcode byte to its operation.
pub fn parse_op_code(byte: u8) -> (r: Result<OpCode, Tx8Error>)
    ensures
        r == spec_op_code(byte),
{
    match byte {
        0x00 => Ok(OpCode::Halt),
        0x01 => Ok(OpCode::Nop),
        0x02 => Ok(OpCode::Jump),
        0x03 => Ok(OpCode::JumpEqual),
        0x04 => Ok(OpCode::JumpNotEqual),
        0x05 => Ok(OpCode::JumpGreaterThan),
        0x06 => Ok(OpCode::JumpGreaterEqual),
        0x07 => Ok(OpCode::JumpLessThan),
        0x08 => Ok(OpCode::JumpLessEqual),
        0x09 => Ok(OpCode::CompareSigned),
        0x0a => Ok(OpCode::CompareFloat),
        0x0b => Ok(OpCode::CompareUnsigned),
        0x0c => Ok(OpCode::Call),
        0x0d => Ok(OpCode::Return),
        0x0e => Ok(OpCode::SysCall),
        0x10 => Ok(OpCode::Load),
        0x11 => Ok(OpCode::LoadSigned),
        0x12 => Ok(OpCode::LoadWord),
        0x13 => Ok(OpCode::LoadWordSigned),
        0x14 => Ok(OpCode::LoadA),
        0x15 => Ok(OpCode::StoreA),
        0x16 => Ok(OpCode::LoadB),
        0x17 => Ok(OpCode::StoreB),
        0x18 => Ok(OpCode::LoadC),
        0x19 => Ok(OpCode::StoreC),
        0x1a => Ok(OpCode::LoadD),
        0x1b => Ok(OpCode::StoreD),
        0x1c => Ok(OpCode::Zero),
        0x1d => Ok(OpCode::Push),
        0x1e => Ok(OpCode::Pop),
        0x20 => Ok(OpCode::Inc),
        0x21 => Ok(OpCode::Dec),
        0x22 => Ok(OpCode::Add),
        0x23 => Ok(OpCode::Sub),
        0x24 => Ok(OpCode::Mul),
        0x25 => Ok(OpCode::Div),
        0x26 => Ok(OpCode::Mod),
        0x27 => Ok(OpCode::Max),
        0x28 => Ok(OpCode::Min),
        0x29 => Ok(OpCode::Abs),
        0x2a => Ok(OpCode::Sign),
        0x30 => Ok(OpCode::And),
        0x31 => Ok(OpCode::Or),
        0x32 => Ok(OpCode::Not),
        0x33 => Ok(OpCode::Nand),
        0x34 => Ok(OpCode::Xor),
        0x35 => Ok(OpCode::ShiftLogicalRight),
        0x36 => Ok(OpCode::ShiftArithRight),
        0x37 => Ok(OpCode::ShiftLogicLeft),
        0x38 => Ok(OpCode::RotateRight),
        0x39 => Ok(OpCode::RotateLeft),
        0x3a => Ok(OpCode::SetBit),
        0x3b => Ok(OpCode::Clear),
        0x3c => Ok(OpCode::Toggle),
        0x3d => Ok(OpCode::Test),
        0x40 => Ok(OpCode::IncFloat),
        0x41 => Ok(OpCode::DecFloat),
        0x42 => Ok(OpCode::AddFloat),
        0x43 => Ok(OpCode::SubFloat),
        0x44 => Ok(OpCode::MulFloat),
        0x45 => Ok(OpCode::DivFloat),
        0x46 => Ok(OpCode::ModFloat),
        0x47 => Ok(OpCode::MaxFloat),
        0x48 => Ok(OpCode::MinFloat),
        0x49 => Ok(OpCode::AbsFloat),
        0x4a => Ok(OpCode::SignFloat),
        0x4b => Ok(OpCode::Sin),
        0x4c => Ok(OpCode::Cos),
        0x4d => Ok(OpCode::Tan),
        0x4e => Ok(OpCode::ArcSin),
        0x4f => Ok(OpCode::ArcCos),
        0x50 => Ok(OpCode::ArcTan),
        0x51 => Ok(OpCode::ArcTan2),
        0x52 => Ok(OpCode::Sqrt),
        0x53 => Ok(OpCode::Pow),
        0x54 => Ok(OpCode::Exp),
        0x55 => Ok(OpCode::Log),
        0x56 => Ok(OpCode::Log2),
        0x57 => Ok(OpCode::Log10),
        0x60 => Ok(OpCode::AddUnsigned),
        0x61 => Ok(OpCode::SubUnsigned),
        0x62 => Ok(OpCode::MulUnsigned),
        0x63 => Ok(OpCode::DivUnsigned),
        0x64 => Ok(OpCode::ModUnsigned),
        0x65 => Ok(OpCode::MaxUnsigned),
        0x66 => Ok(OpCode::MinUnsigned),
        0x70 => Ok(OpCode::Rand),
        0x71 => Ok(OpCode::RSeed),
        0x72 => Ok(OpCode::ItoF),
        0x73 => Ok(OpCode::FtoI),
        0x74 => Ok(OpCode::UtoF),
        0x75 => Ok(OpCode::FtoU),
        _ => Err(Tx8Error::InvalidOpCode(byte)),
    }
}

} // verus!
