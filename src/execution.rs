use crate::errors::Tx8Error;
use crate::hardware::{
    rom_image, spec_read_int, Cpu, Memory, MAX_ROM_SIZE, ROM_BASE, STACK_START,
};
use crate::instruction::{
    parse_instruction, spec_advances, spec_decode, Comparison, Instruction, Type,
};
use crate::parameter::{
    read_sized, read_sized_of, write_sized, write_sized_of, Size, Value, Writable, Write,
};
use crate::random::{next_state, sample_of, Rand};
use crate::semantics::{
    abs_sign_words, add_at, as_signed, bit_index, bit_mask, bit_of, bit_of_word, div_words,
    max_min_words, mul_words, rol_word, ror_word, sar_words, signed_of, signum_bits, signum_of,
    sll_words, slr_words, spec_abs_sign, spec_add, spec_div, spec_max_min, spec_mul, spec_rol,
    spec_ror, spec_sar, spec_sll, spec_slr, spec_sub, sub_at,
};
use vstd::prelude::*;
use vstd::std_specs::iter::IteratorSpec;

verus! {

broadcast use {vstd::string::group_string_axioms, vstd::string::next_postcondition};

/// The state of a running machine: registers, address space, generator state and the
/// input not yet consumed.
pub struct Machine {
    pub cpu: Cpu,
    pub mem: Seq<u8>,
    pub seed: u32,
    pub input: Seq<u8>,
}

/// What a step asks of the embedder.
#[derive(Clone, Copy, Debug, PartialEq, Eq, Structural)]
pub enum Effect {
    /// Nothing: go on with the next step.
    Continue,
    /// The program has ended.
    Halted,
    /// Print this.
    Print(Print),
    /// Compute this binary32 operation and hand the result to `resume_float`; the machine
    /// has not changed.
    Float(FloatRequest),
}

/// Output of a print call. Values are given as their 32-bit carriers.
#[derive(Clone, Copy, Debug, PartialEq, Eq, Structural)]
pub enum Print {
    Unsigned(u32),
    Signed(u32),
    Float(u32),
    Byte(u8),
    Char(u8),
    /// A binary32 number, then a line break.
    FloatLine(u32),
    /// Lower-case hexadecimal, then a line break.
    HexLine(u32),
    /// A signed number, then a line break.
    SignedLine(u32),
}

/// A binary32 operation; operands and results are given as their bits.
#[derive(Clone, Copy, Debug, PartialEq, Eq, Structural)]
pub enum FloatOp {
    Add,
    Sub,
    Mul,
    /// Quotient and remainder (`%`).
    DivRem,
    /// The sign of `lhs - rhs` (`signum`), converted to a signed integer.
    Compare,
    Sin,
    Cos,
    Tan,
    ArcSin,
    ArcCos,
    ArcTan,
    ArcTan2,
    Sqrt,
    Pow,
    Exp,
    Log,
    Log2,
    Log10,
    /// `lhs` as a signed integer, converted to binary32.
    IntToFloat,
    /// Conversion to a signed integer.
    FloatToInt,
    /// `lhs` as an unsigned integer, converted to binary32.
    UintToFloat,
    /// Conversion to an unsigned integer.
    FloatToUint,
    /// `lhs` divided by `RANGE`, both converted to binary32.
    Normalize,
}

#[derive(Clone, Copy, Debug, PartialEq, Eq, Structural)]
pub struct FloatRequest {
    pub op: FloatOp,
    pub lhs: u32,
    pub rhs: u32,
}

/// The answer to a `FloatRequest`: `remainder` is read for `DivRem` only.
#[derive(Clone, Copy, Debug, PartialEq, Eq, Structural)]
pub struct FloatResult {
    pub value: u32,
    pub remainder: u32,
}

/// The host calls, by name.
#[derive(Clone, Copy, Debug, PartialEq, Eq, Structural)]
pub enum SysCall {
    PrintU32,
    PrintI32,
    PrintF32,
    PrintU8,
    PrintChar,
    TestAf,
    TestAu,
    TestAi,
    TestRf,
    TestR,
    TestRi,
    ReadChar,
}

/// Hash of a name: the first character, then for each further character `c`,
/// `h := 31 * h + c`, wrapping at 32 bits. The empty name hashes to 0.
pub open spec fn spec_hash(s: Seq<char>) -> u32
    decreases s.len(),
{
    if s.len() == 0 {
        0
    } else {
        spec_hash(s.drop_last()).wrapping_mul(31).wrapping_add(s.last() as u32)
    }
}

/// The host call whose name hashes to `h`.
pub open spec fn spec_sys_call(h: u32) -> Option<SysCall> {
    if h == spec_hash("print_u32"@) {
        Some(SysCall::PrintU32)
    } else if h == spec_hash("print_i32"@) {
        Some(SysCall::PrintI32)
    } else if h == spec_hash("print_f32"@) {
        Some(SysCall::PrintF32)
    } else if h == spec_hash("print_u8"@) {
        Some(SysCall::PrintU8)
    } else if h == spec_hash("print_char"@) {
        Some(SysCall::PrintChar)
    } else if h == spec_hash("test_af"@) {
        Some(SysCall::TestAf)
    } else if h == spec_hash("test_au"@) {
        Some(SysCall::TestAu)
    } else if h == spec_hash("test_ai"@) {
        Some(SysCall::TestAi)
    } else if h == spec_hash("test_rf"@) {
        Some(SysCall::TestRf)
    } else if h == spec_hash("test_r"@) {
        Some(SysCall::TestR)
    } else if h == spec_hash("test_ri"@) {
        Some(SysCall::TestRi)
    } else if h == spec_hash("read_char"@) {
        Some(SysCall::ReadChar)
    } else {
        None
    }
}

pub open spec fn with_cpu(m: Machine, cpu: Cpu) -> Machine {
    Machine { cpu, ..m }
}

pub open spec fn set_r(m: Machine, v: u32) -> Machine {
    with_cpu(m, Cpu { r: v, ..m.cpu })
}

/// The machine after writing the low bytes of width `size` of `val` through `w`.
pub open spec fn store(m: Machine, w: Writable, val: u32, size: Size) -> Result<Machine, Tx8Error> {
    match w.spec_store(m.mem, m.cpu, val, size) {
        Ok((mem, cpu)) => Ok(Machine { cpu, mem, ..m }),
        Err(e) => Err(e),
    }
}

/// The machine after writing `val` through `w` at its natural width.
pub open spec fn store_natural(m: Machine, w: Writable, val: u32) -> Result<Machine, Tx8Error> {
    store(m, w, val, w.spec_size())
}

/// `r` with register `r` set to `v` where it succeeded.
pub open spec fn then_r(r: Result<Machine, Tx8Error>, v: u32) -> Result<Machine, Tx8Error> {
    match r {
        Ok(m) => Ok(set_r(m, v)),
        Err(e) => Err(e),
    }
}

/// One of two results to the destination and the other to register `r`: `x` goes to the
/// destination if `first`, else `y` does.
pub open spec fn store_pair(m: Machine, w: Writable, x: u32, y: u32, first: bool) -> Result<
    Machine,
    Tx8Error,
> {
    if first {
        then_r(store_natural(m, w, x), y)
    } else {
        then_r(store_natural(m, w, y), x)
    }
}

pub open spec fn jump_taken(r: u32, c: Comparison) -> bool {
    let x = as_signed(r, Size::Int);
    match c {
        Comparison::Always => true,
        Comparison::Equal => x == 0,
        Comparison::NotEqual => x != 0,
        Comparison::Greater => x > 0,
        Comparison::GreaterEqual => x >= 0,
        Comparison::Less => x < 0,
        Comparison::LessEqual => x <= 0,
    }
}

pub open spec fn spec_jump(m: Machine, target: u32, c: Comparison, len: u32) -> Machine {
    let p = if jump_taken(m.cpu.r, c) {
        target
    } else {
        m.cpu.p.wrapping_add(len)
    };
    with_cpu(m, Cpu { p, ..m.cpu })
}

/// `s` lowered by the width of `v`, then `v` stored there.
pub open spec fn spec_push(m: Machine, v: Value) -> Machine {
    let s = m.cpu.s.wrapping_sub(v.size.nbytes() as u32);
    Machine { cpu: Cpu { s, ..m.cpu }, mem: write_sized(m.mem, s, v.val, v.size), ..m }
}

/// The value of `w`'s natural width at `s` written to `w`, then `s` raised by that width.
pub open spec fn spec_pop(m: Machine, w: Writable) -> Result<Machine, Tx8Error> {
    let size = w.spec_size();
    match store_natural(m, w, read_sized(m.mem, m.cpu.s, size)) {
        Ok(m2) => Ok(with_cpu(m2, Cpu { s: m2.cpu.s.wrapping_add(size.nbytes() as u32), ..m2.cpu })),
        Err(e) => Err(e),
    }
}

pub open spec fn spec_call(m: Machine, target: u32, len: u32) -> Machine {
    let m2 = spec_push(m, Value { val: m.cpu.p.wrapping_add(len), size: Size::Int });
    with_cpu(m2, Cpu { p: target, ..m2.cpu })
}

pub open spec fn spec_ret(m: Machine) -> Machine {
    with_cpu(
        m,
        Cpu { p: spec_read_int(m.mem, m.cpu.s), s: m.cpu.s.wrapping_add(4), ..m.cpu },
    )
}

pub open spec fn spec_sys_call_effect(m: Machine, h: u32) -> Result<(Machine, Effect), Tx8Error> {
    let top = spec_read_int(m.mem, m.cpu.s);
    match spec_sys_call(h) {
        None => Err(Tx8Error::InvalidSysCall),
        Some(SysCall::PrintU32) => Ok((m, Effect::Print(Print::Unsigned(top)))),
        Some(SysCall::PrintI32) => Ok((m, Effect::Print(Print::Signed(top)))),
        Some(SysCall::PrintF32) => Ok((m, Effect::Print(Print::Float(top)))),
        Some(SysCall::PrintU8) => Ok((m, Effect::Print(Print::Byte((top % 0x100) as u8)))),
        Some(SysCall::PrintChar) => Ok((m, Effect::Print(Print::Char((top % 0x100) as u8)))),
        Some(SysCall::TestAf) => Ok((m, Effect::Print(Print::FloatLine(m.cpu.a)))),
        Some(SysCall::TestAu) => Ok((m, Effect::Print(Print::HexLine(m.cpu.a)))),
        Some(SysCall::TestAi) => Ok((m, Effect::Print(Print::SignedLine(m.cpu.a)))),
        Some(SysCall::TestRf) => Ok((m, Effect::Print(Print::FloatLine(m.cpu.r)))),
        Some(SysCall::TestR) => Ok((m, Effect::Print(Print::HexLine(m.cpu.r)))),
        Some(SysCall::TestRi) => Ok((m, Effect::Print(Print::SignedLine(m.cpu.r)))),
        Some(SysCall::ReadChar) => if m.input.len() == 0 {
            Err(Tx8Error::NoInputGiven)
        } else {
            Ok(
                (
                    Machine {
                        cpu: Cpu { o: m.input[0] as u32, ..m.cpu },
                        input: m.input.drop_first(),
                        ..m
                    },
                    Effect::Continue,
                ),
            )
        },
    }
}

pub open spec fn request(op: FloatOp, lhs: u32, rhs: u32) -> Option<FloatRequest> {
    Some(FloatRequest { op, lhs, rhs })
}

/// The binary32 operation that instruction `i` needs done by the embedder, if any.
pub open spec fn spec_float_request(m: Machine, i: Instruction) -> Option<FloatRequest> {
    match i {
        Instruction::Add(_, a, b, Type::Float) => request(FloatOp::Add, a.val, b.val),
        Instruction::Sub(_, a, b, Type::Float) => request(FloatOp::Sub, a.val, b.val),
        Instruction::Mul(_, a, b, Type::Float) => request(FloatOp::Mul, a.val, b.val),
        Instruction::DivMod(_, a, b, Type::Float, _) => request(FloatOp::DivRem, a.val, b.val),
        Instruction::CompareFloat(a, b) => request(FloatOp::Compare, a.val, b.val),
        Instruction::Sin(_, a) => request(FloatOp::Sin, a.val, 0),
        Instruction::Cos(_, a) => request(FloatOp::Cos, a.val, 0),
        Instruction::Tan(_, a) => request(FloatOp::Tan, a.val, 0),
        Instruction::ArcSin(_, a) => request(FloatOp::ArcSin, a.val, 0),
        Instruction::ArcCos(_, a) => request(FloatOp::ArcCos, a.val, 0),
        Instruction::ArcTan(_, a) => request(FloatOp::ArcTan, a.val, 0),
        Instruction::ArcTan2(_, a, b) => request(FloatOp::ArcTan2, a.val, b.val),
        Instruction::Sqrt(_, a) => request(FloatOp::Sqrt, a.val, 0),
        Instruction::Pow(_, a, b) => request(FloatOp::Pow, a.val, b.val),
        Instruction::Exp(_, a) => request(FloatOp::Exp, a.val, 0),
        Instruction::Log(_, a) => request(FloatOp::Log, a.val, 0),
        Instruction::Log2(_, a) => request(FloatOp::Log2, a.val, 0),
        Instruction::Log10(_, a) => request(FloatOp::Log10, a.val, 0),
        Instruction::ItoF(_, a) => request(FloatOp::IntToFloat, a.val, 0),
        Instruction::FtoI(_, a) => request(FloatOp::FloatToInt, a.val, 0),
        Instruction::UtoF(_, a) => request(FloatOp::UintToFloat, a.val, 0),
        Instruction::FtoU(_, a) => request(FloatOp::FloatToUint, a.val, 0),
        Instruction::Rand(_) => request(FloatOp::Normalize, sample_of(next_state(m.seed)), 0),
        _ => None,
    }
}

pub open spec fn spec_add_op(m: Machine, w: Writable, a: Value, b: Value, t: Type, f: FloatResult) -> Result<
    Machine,
    Tx8Error,
> {
    if t == Type::Float {
        store_natural(m, w, f.value)
    } else {
        let (res, flags) = spec_add(a.val, b.val, w.spec_size());
        then_r(store_natural(m, w, res), flags)
    }
}

pub open spec fn spec_sub_op(m: Machine, w: Writable, a: Value, b: Value, t: Type, f: FloatResult) -> Result<
    Machine,
    Tx8Error,
> {
    if t == Type::Float {
        store_natural(m, w, f.value)
    } else {
        let (res, flags) = spec_sub(a.val, b.val, w.spec_size());
        then_r(store_natural(m, w, res), flags)
    }
}

pub open spec fn spec_mul_op(m: Machine, w: Writable, a: Value, b: Value, t: Type, f: FloatResult) -> Result<
    Machine,
    Tx8Error,
> {
    if t == Type::Float {
        store_natural(m, w, f.value)
    } else {
        let (lo, hi) = spec_mul(a.val, b.val, t == Type::Signed);
        then_r(store_natural(m, w, lo), hi)
    }
}

/// Integer division by a zero carrier fails; a binary32 one does not.
pub open spec fn spec_div_op(
    m: Machine,
    w: Writable,
    a: Value,
    b: Value,
    t: Type,
    is_div: bool,
    f: FloatResult,
) -> Result<Machine, Tx8Error> {
    if t == Type::Float {
        store_pair(m, w, f.value, f.remainder, is_div)
    } else if b.val == 0 {
        Err(Tx8Error::DivisionByZero)
    } else {
        let (q, rem) = spec_div(a.val, b.val, t == Type::Signed);
        store_pair(m, w, q, rem, is_div)
    }
}

pub open spec fn spec_max_min_op(m: Machine, w: Writable, a: Value, b: Value, t: Type, is_max: bool) -> Result<
    Machine,
    Tx8Error,
> {
    let (max, min) = spec_max_min(a.val, b.val, t == Type::Signed, t == Type::Float);
    store_pair(m, w, max, min, is_max)
}

/// There is no unsigned absolute value.
pub open spec fn spec_abs_sign_op(m: Machine, w: Writable, a: Value, t: Type, is_abs: bool) -> Result<
    Machine,
    Tx8Error,
> {
    if t == Type::Unsigned {
        Err(Tx8Error::InstructionError)
    } else {
        let (abs, sign) = spec_abs_sign(a.val, t == Type::Float);
        store_pair(m, w, abs, sign, is_abs)
    }
}

/// A result to the destination, a second one to register `r`.
pub open spec fn spec_with_out(m: Machine, w: Writable, res: (u32, u32)) -> Result<Machine, Tx8Error> {
    then_r(store_natural(m, w, res.0), res.1)
}

pub open spec fn spec_bit_op(m: Machine, w: Writable, a: Value, b: Value, kind: BitOp) -> Result<
    Machine,
    Tx8Error,
> {
    let i = bit_index(b.val, w.spec_size());
    let one = 1u32 << i;
    let res = match kind {
        BitOp::Raise => a.val | one,
        BitOp::Clear => a.val & !one,
        BitOp::Toggle => a.val ^ one,
    };
    then_r(store_natural(m, w, res), bit_of(a.val, i))
}

/// What a single-bit instruction does to the addressed bit.
#[derive(Clone, Copy, Debug, PartialEq, Eq, Structural)]
pub enum BitOp {
    Raise,
    Clear,
    Toggle,
}

pub open spec fn spec_rand_op(m: Machine, w: Writable, f: FloatResult) -> Result<Machine, Tx8Error> {
    match store_natural(m, w, f.value) {
        Ok(m2) => Ok(
            Machine {
                cpu: Cpu { r: sample_of(next_state(m.seed)), ..m2.cpu },
                seed: next_state(m.seed),
                ..m2
            },
        ),
        Err(e) => Err(e),
    }
}

pub open spec fn continue_with(r: Result<Machine, Tx8Error>) -> Result<(Machine, Effect), Tx8Error> {
    match r {
        Ok(m) => Ok((m, Effect::Continue)),
        Err(e) => Err(e),
    }
}

/// Instruction `i`, decoded with length `len`, carried out on `m`; `f` is the result of the
/// binary32 operation that it needs, if any. The program counter is not yet advanced.
pub open spec fn spec_execute(m: Machine, i: Instruction, len: u32, f: FloatResult) -> Result<
    (Machine, Effect),
    Tx8Error,
> {
    match i {
        Instruction::Halt => Ok((m, Effect::Halted)),
        Instruction::Nop => Ok((m, Effect::Continue)),
        Instruction::Jump(v, c) => Ok((spec_jump(m, v.val, c, len), Effect::Continue)),
        Instruction::CompareSigned(a, b) => Ok(
            (
                set_r(m, signum_bits(as_signed(a.val, a.size) - as_signed(b.val, a.size))),
                Effect::Continue,
            ),
        ),
        Instruction::CompareFloat(_, _) => Ok((set_r(m, f.value), Effect::Continue)),
        Instruction::CompareUnsigned(a, b) => Ok(
            (set_r(m, signum_bits(a.val - b.val)), Effect::Continue),
        ),
        Instruction::Call(v) => Ok((spec_call(m, v.val, len), Effect::Continue)),
        Instruction::SysCall(v) => spec_sys_call_effect(m, v.val),
        Instruction::Return => Ok((spec_ret(m), Effect::Continue)),
        Instruction::Load(w, v) => continue_with(store(m, w, v.val, v.size)),
        Instruction::Push(v) => Ok((spec_push(m, v), Effect::Continue)),
        Instruction::Pop(w) => continue_with(spec_pop(m, w)),
        Instruction::Add(w, a, b, t) => continue_with(spec_add_op(m, w, a, b, t, f)),
        Instruction::Sub(w, a, b, t) => continue_with(spec_sub_op(m, w, a, b, t, f)),
        Instruction::Mul(w, a, b, t) => continue_with(spec_mul_op(m, w, a, b, t, f)),
        Instruction::DivMod(w, a, b, t, is_div) => continue_with(
            spec_div_op(m, w, a, b, t, is_div, f),
        ),
        Instruction::MaxMin(w, a, b, t, is_max) => continue_with(
            spec_max_min_op(m, w, a, b, t, is_max),
        ),
        Instruction::AbsSign(w, a, t, is_abs) => continue_with(
            spec_abs_sign_op(m, w, a, t, is_abs),
        ),
        Instruction::And(w, a, b) => continue_with(store_natural(m, w, a.val & b.val)),
        Instruction::Or(w, a, b) => continue_with(store_natural(m, w, a.val | b.val)),
        Instruction::Not(w, a) => continue_with(store_natural(m, w, !a.val)),
        Instruction::Nand(w, a, b) => continue_with(store_natural(m, w, !(a.val & b.val))),
        Instruction::Xor(w, a, b) => continue_with(store_natural(m, w, a.val ^ b.val)),
        Instruction::ShiftLogicalRight(w, a, b) => continue_with(
            spec_with_out(m, w, spec_slr(a.val, b.val, w.spec_size())),
        ),
        Instruction::ShiftArithRight(w, a, b) => continue_with(
            spec_with_out(m, w, spec_sar(a.val, b.val, w.spec_size())),
        ),
        Instruction::ShiftLogicLeft(w, a, b) => continue_with(
            spec_with_out(m, w, spec_sll(a.val, b.val, w.spec_size())),
        ),
        Instruction::RotateRight(w, a, b) => continue_with(
            store_natural(m, w, spec_ror(a.val, b.val, w.spec_size())),
        ),
        Instruction::RotateLeft(w, a, b) => continue_with(
            store_natural(m, w, spec_rol(a.val, b.val, w.spec_size())),
        ),
        Instruction::SetBit(w, a, b) => continue_with(spec_bit_op(m, w, a, b, BitOp::Raise)),
        Instruction::Clear(w, a, b) => continue_with(spec_bit_op(m, w, a, b, BitOp::Clear)),
        Instruction::Toggle(w, a, b) => continue_with(spec_bit_op(m, w, a, b, BitOp::Toggle)),
        Instruction::Test(a, b) => Ok(
            (set_r(m, bit_of(a.val, bit_index(b.val, a.size))), Effect::Continue),
        ),
        Instruction::Sin(w, _) => continue_with(store_natural(m, w, f.value)),
        Instruction::Cos(w, _) => continue_with(store_natural(m, w, f.value)),
        Instruction::Tan(w, _) => continue_with(store_natural(m, w, f.value)),
        Instruction::ArcSin(w, _) => continue_with(store_natural(m, w, f.value)),
        Instruction::ArcCos(w, _) => continue_with(store_natural(m, w, f.value)),
        Instruction::ArcTan(w, _) => continue_with(store_natural(m, w, f.value)),
        Instruction::ArcTan2(w, _, _) => continue_with(store_natural(m, w, f.value)),
        Instruction::Sqrt(w, _) => continue_with(store_natural(m, w, f.value)),
        Instruction::Pow(w, _, _) => continue_with(store_natural(m, w, f.value)),
        Instruction::Exp(w, _) => continue_with(store_natural(m, w, f.value)),
        Instruction::Log(w, _) => continue_with(store_natural(m, w, f.value)),
        Instruction::Log2(w, _) => continue_with(store_natural(m, w, f.value)),
        Instruction::Log10(w, _) => continue_with(store_natural(m, w, f.value)),
        Instruction::Rand(w) => continue_with(spec_rand_op(m, w, f)),
        Instruction::RSeed(v) => Ok((Machine { seed: v.val, ..m }, Effect::Continue)),
        Instruction::ItoF(w, _) => continue_with(store_natural(m, w, f.value)),
        Instruction::FtoI(w, _) => continue_with(store_natural(m, w, f.value)),
        Instruction::UtoF(w, _) => continue_with(store_natural(m, w, f.value)),
        Instruction::FtoU(w, _) => continue_with(store_natural(m, w, f.value)),
    }
}

/// One step: decode at the program counter, execute with `f` as the binary32 result, then
/// advance the program counter past the instruction unless it set it itself.
pub open spec fn spec_step(m: Machine, f: FloatResult) -> Result<(Machine, Effect), Tx8Error> {
    match spec_decode(m.cpu, m.mem, m.cpu.p) {
        Err(e) => Err(e),
        Ok((i, len)) => match spec_execute(m, i, len, f) {
            Err(e) => Err(e),
            Ok((m2, effect)) => Ok(
                (
                    if spec_advances(i) {
                        with_cpu(m2, Cpu { p: m2.cpu.p.wrapping_add(len), ..m2.cpu })
                    } else {
                        m2
                    },
                    effect,
                ),
            ),
        },
    }
}

/// The result value passed where no binary32 operation is involved.
pub open spec fn no_float() -> FloatResult {
    FloatResult { value: 0, remainder: 0 }
}

/// `r` and the machine `m1` after a call on `m0` are as `expected` says; on an error the
/// machine is unchanged.
pub open spec fn outcome(
    expected: Result<(Machine, Effect), Tx8Error>,
    r: Result<Effect, Tx8Error>,
    m0: Machine,
    m1: Machine,
) -> bool {
    match expected {
        Ok((m, e)) => r == Ok::<Effect, Tx8Error>(e) && m1 == m,
        Err(e) => r == Err::<Effect, Tx8Error>(e) && m1 == m0,
    }
}

/// Like `outcome`, for a call that gives no effect.
pub open spec fn done(expected: Result<Machine, Tx8Error>, r: Result<(), Tx8Error>, m0: Machine, m1: Machine) -> bool {
    match expected {
        Ok(m) => r is Ok && m1 == m,
        Err(e) => r == Err::<(), Tx8Error>(e) && m1 == m0,
    }
}

/// The initial machine for a payload and an input stream.
pub open spec fn initial_machine(data: Seq<u8>, input: Seq<u8>) -> Machine {
    Machine {
        cpu: Cpu { a: 0, b: 0, c: 0, d: 0, r: 0, o: 0, s: STACK_START, p: ROM_BASE as u32 },
        mem: rom_image(data),
        seed: 0x12345678,
        input,
    }
}

/// Hash of a host-call name.
pub fn hash(s: &str) -> (h: u32)
    ensures
        h == spec_hash(s@),
{
    let mut chars = s.chars();
    let mut h: u32 = 0;
    let ghost mut seen: Seq<char> = Seq::empty();
    proof {
        vstd::string::axiom_spec_iter(s);
    }
    loop
        invariant
            s@ == seen + chars.remaining(),
            h == spec_hash(seen),
            chars.decrease() is Some,
        ensures
            h == spec_hash(s@),
        decreases chars.decrease()->0,
    {
        let ghost before = chars;
        match chars.next() {
            Some(c) => {
                proof {
                    assert(seen.push(c).drop_last() =~= seen);
                    assert(s@ =~= seen.push(c) + chars.remaining());
                    seen = seen.push(c);
                }
                h = h.wrapping_mul(31).wrapping_add(c as u32);
            },
            None => {
                proof {
                    assert(seen =~= s@);
                }
                break ;
            },
        }
    }
    h
}

/// The host call named by hash `h`.
pub fn sys_call_of(h: u32) -> (r: Option<SysCall>)
    ensures
        r == spec_sys_call(h),
{
    if h == hash("print_u32") {
        Some(SysCall::PrintU32)
    } else if h == hash("print_i32") {
        Some(SysCall::PrintI32)
    } else if h == hash("print_f32") {
        Some(SysCall::PrintF32)
    } else if h == hash("print_u8") {
        Some(SysCall::PrintU8)
    } else if h == hash("print_char") {
        Some(SysCall::PrintChar)
    } else if h == hash("test_af") {
        Some(SysCall::TestAf)
    } else if h == hash("test_au") {
        Some(SysCall::TestAu)
    } else if h == hash("test_ai") {
        Some(SysCall::TestAi)
    } else if h == hash("test_rf") {
        Some(SysCall::TestRf)
    } else if h == hash("test_r") {
        Some(SysCall::TestR)
    } else if h == hash("test_ri") {
        Some(SysCall::TestRi)
    } else if h == hash("read_char") {
        Some(SysCall::ReadChar)
    } else {
        None
    }
}

/// A machine running a program: registers, address space, pseudo-random generator and the
/// input that `read_char` consumes.
#[derive(Clone, Debug)]
pub struct Execution {
    cpu: Cpu,
    memory: Memory,
    rand: Rand,
    input: Vec<u8>,
    input_pos: usize,
}

impl View for Execution {
    type V = Machine;

    closed spec fn view(&self) -> Machine {
        Machine {
            cpu: self.cpu,
            mem: self.memory@,
            seed: self.rand@,
            input: self.input@.skip(self.input_pos as int),
        }
    }
}

impl Execution {
    pub closed spec fn wf(&self) -> bool {
        self.memory.wf() && self.input_pos <= self.input@.len()
    }

    /// A machine with `data` loaded at `ROM_BASE`, the registers at their initial values,
    /// and `input` to be read by `read_char`. A payload over `MAX_ROM_SIZE` is refused.
    pub fn new_with_rom(data: &[u8], input: Vec<u8>) -> (r: Result<Execution, Tx8Error>)
        ensures
            data@.len() > MAX_ROM_SIZE ==> (r matches Err(e) && e == Tx8Error::ParseError),
            data@.len() <= MAX_ROM_SIZE ==> (r matches Ok(exec) && exec.wf() && exec@
                == initial_machine(data@, input@)),
    {
        let memory = Memory::load_rom(data)?;
        let exec = Execution { cpu: Cpu::new(), memory, rand: Rand::new(), input, input_pos: 0 };
        assert(exec.input@.skip(0) =~= input@);
        Ok(exec)
    }

    pub fn cpu(&self) -> (c: Cpu)
        ensures
            c == self@.cpu,
    {
        self.cpu
    }

    pub fn memory(&self) -> (m: &Memory)
        requires
            self.wf(),
        ensures
            m@ == self@.mem,
            m.wf(),
    {
        &self.memory
    }

    /// Writes `val` through `to` at its natural width.
    fn write_natural(&mut self, to: Writable, val: u32) -> (r: Result<(), Tx8Error>)
        requires
            old(self).wf(),
        ensures
            final(self).wf(),
            done(store_natural(old(self)@, to, val), r, old(self)@, final(self)@),
    {
        to.write(&mut self.memory, &mut self.cpu, val)
    }

    /// `x` to the destination and `y` to register `r` if `first`, the other way round else.
    fn write_pair(&mut self, to: Writable, x: u32, y: u32, first: bool) -> (r: Result<(), Tx8Error>)
        requires
            old(self).wf(),
        ensures
            final(self).wf(),
            done(store_pair(old(self)@, to, x, y, first), r, old(self)@, final(self)@),
    {
        if first {
            self.write_natural(to, x)?;
            self.cpu.r = y;
        } else {
            self.write_natural(to, y)?;
            self.cpu.r = x;
        }
        Ok(())
    }

    /// A result to the destination, a second one to register `r`.
    fn write_with_out(&mut self, to: Writable, res: (u32, u32)) -> (r: Result<(), Tx8Error>)
        requires
            old(self).wf(),
        ensures
            final(self).wf(),
            done(spec_with_out(old(self)@, to, res), r, old(self)@, final(self)@),
    {
        self.write_natural(to, res.0)?;
        self.cpu.r = res.1;
        Ok(())
    }

    fn jump(&mut self, val: u32, comp: Comparison, instr_len: u32)
        ensures
            final(self).wf() == old(self).wf(),
            final(self)@ == spec_jump(old(self)@, val, comp, instr_len),
    {
        let r = signed_of(self.cpu.r, Size::Int);
        let cond = match comp {
            Comparison::Always => true,
            Comparison::Equal => r == 0,
            Comparison::NotEqual => r != 0,
            Comparison::Greater => r > 0,
            Comparison::GreaterEqual => r >= 0,
            Comparison::Less => r < 0,
            Comparison::LessEqual => r <= 0,
        };
        if cond {
            self.cpu.p = val;
        } else {
            self.cpu.p = self.cpu.p.wrapping_add(instr_len);
        }
    }

    /// Sets `r` to the sign of `val - val2`, both read as signed numbers of `val`'s width.
    fn compare_signed(&mut self, val: Value, val2: u32)
        ensures
            final(self).wf() == old(self).wf(),
            final(self)@ == set_r(
                old(self)@,
                signum_bits(as_signed(val.val, val.size) - as_signed(val2, val.size)),
            ),
    {
        self.cpu.r = signum_of(signed_of(val.val, val.size) - signed_of(val2, val.size));
    }

    /// Sets `r` to the sign of `val - val2` as computed in binary32 by the embedder.
    fn compare_float(&mut self, sign: u32)
        ensures
            final(self).wf() == old(self).wf(),
            final(self)@ == set_r(old(self)@, sign),
    {
        self.cpu.r = sign;
    }

    fn compare_unsigned(&mut self, val: u32, val2: u32)
        ensures
            final(self).wf() == old(self).wf(),
            final(self)@ == set_r(old(self)@, signum_bits(val - val2)),
    {
        self.cpu.r = signum_of(val as i64 - val2 as i64);
    }

    fn load(&mut self, to: Writable, val: Value) -> (r: Result<(), Tx8Error>)
        requires
            old(self).wf(),
        ensures
            final(self).wf(),
            done(store(old(self)@, to, val.val, val.size), r, old(self)@, final(self)@),
    {
        to.write_size(&mut self.memory, &mut self.cpu, val.val, val.size)
    }

    fn push(&mut self, val: Value)
        requires
            old(self).wf(),
        ensures
            final(self).wf(),
            final(self)@ == spec_push(old(self)@, val),
    {
        self.cpu.s = self.cpu.s.wrapping_sub(val.size.bytes());
        write_sized_of(&mut self.memory, self.cpu.s, val.val, val.size);
    }

    fn pop(&mut self, val: Writable) -> (r: Result<(), Tx8Error>)
        requires
            old(self).wf(),
        ensures
            final(self).wf(),
            done(spec_pop(old(self)@, val), r, old(self)@, final(self)@),
    {
        let size = val.size();
        let value = read_sized_of(&self.memory, self.cpu.s, size);
        self.write_natural(val, value)?;
        self.cpu.s = self.cpu.s.wrapping_add(size.bytes());
        Ok(())
    }

    fn call(&mut self, val: Value, len: u32)
        requires
            old(self).wf(),
        ensures
            final(self).wf(),
            final(self)@ == spec_call(old(self)@, val.val, len),
    {
        self.push(Value::new(self.cpu.p.wrapping_add(len), Size::Int));
        self.cpu.p = val.val;
    }

    fn ret(&mut self)
        requires
            old(self).wf(),
        ensures
            final(self).wf(),
            final(self)@ == spec_ret(old(self)@),
    {
        let val = self.memory.read_int(self.cpu.s);
        self.cpu.s = self.cpu.s.wrapping_add(4);
        self.cpu.p = val;
    }

    fn add(&mut self, to: Writable, first: Value, second: Value, kind: Type, float: u32) -> (r: Result<
        (),
        Tx8Error,
    >)
        requires
            old(self).wf(),
        ensures
            final(self).wf(),
            done(
                spec_add_op(old(self)@, to, first, second, kind, FloatResult { value: float, remainder: 0 }),
                r,
                old(self)@,
                final(self)@,
            ),
    {
        if kind == Type::Float {
            return self.write_natural(to, float);
        }
        let res = add_at(first.val, second.val, to.size());
        self.write_with_out(to, res)
    }

    fn sub(&mut self, to: Writable, first: Value, second: Value, kind: Type, float: u32) -> (r: Result<
        (),
        Tx8Error,
    >)
        requires
            old(self).wf(),
        ensures
            final(self).wf(),
            done(
                spec_sub_op(old(self)@, to, first, second, kind, FloatResult { value: float, remainder: 0 }),
                r,
                old(self)@,
                final(self)@,
            ),
    {
        if kind == Type::Float {
            return self.write_natural(to, float);
        }
        let res = sub_at(first.val, second.val, to.size());
        self.write_with_out(to, res)
    }

    fn mul(&mut self, to: Writable, val: Value, val2: Value, kind: Type, float: u32) -> (r: Result<
        (),
        Tx8Error,
    >)
        requires
            old(self).wf(),
        ensures
            final(self).wf(),
            done(
                spec_mul_op(old(self)@, to, val, val2, kind, FloatResult { value: float, remainder: 0 }),
                r,
                old(self)@,
                final(self)@,
            ),
    {
        if kind == Type::Float {
            return self.write_natural(to, float);
        }
        let res = mul_words(val.val, val2.val, kind == Type::Signed);
        self.write_with_out(to, res)
    }

    fn div(&mut self, to: Writable, val: Value, val2: Value, kind: Type, is_div: bool, float: FloatResult) -> (r:
        Result<(), Tx8Error>)
        requires
            old(self).wf(),
        ensures
            final(self).wf(),
            done(spec_div_op(old(self)@, to, val, val2, kind, is_div, float), r, old(self)@, final(self)@),
    {
        if kind == Type::Float {
            return self.write_pair(to, float.value, float.remainder, is_div);
        }
        if val2.val == 0 {
            return Err(Tx8Error::DivisionByZero);
        }
        let (quotient, remainder) = div_words(val.val, val2.val, kind == Type::Signed);
        self.write_pair(to, quotient, remainder, is_div)
    }

    fn max_min(&mut self, to: Writable, val: Value, val2: Value, kind: Type, is_max: bool) -> (r: Result<
        (),
        Tx8Error,
    >)
        requires
            old(self).wf(),
        ensures
            final(self).wf(),
            done(spec_max_min_op(old(self)@, to, val, val2, kind, is_max), r, old(self)@, final(self)@),
    {
        let (max, min) = max_min_words(val.val, val2.val, kind == Type::Signed, kind == Type::Float);
        self.write_pair(to, max, min, is_max)
    }

    fn abs_sign(&mut self, to: Writable, val: Value, kind: Type, is_abs: bool) -> (r: Result<
        (),
        Tx8Error,
    >)
        requires
            old(self).wf(),
        ensures
            final(self).wf(),
            done(spec_abs_sign_op(old(self)@, to, val, kind, is_abs), r, old(self)@, final(self)@),
    {
        if kind == Type::Unsigned {
            return Err(Tx8Error::InstructionError);
        }
        let (abs, sign) = abs_sign_words(val.val, kind == Type::Float);
        self.write_pair(to, abs, sign, is_abs)
    }

    fn bit_op(&mut self, to: Writable, val: Value, val2: Value, kind: BitOp) -> (r: Result<
        (),
        Tx8Error,
    >)
        requires
            old(self).wf(),
        ensures
            final(self).wf(),
            done(spec_bit_op(old(self)@, to, val, val2, kind), r, old(self)@, final(self)@),
    {
        let (_, one) = bit_mask(val2.val, to.size());
        let bit = bit_of_word(val.val, one);
        let res = match kind {
            BitOp::Raise => val.val | one,
            BitOp::Clear => val.val & !one,
            BitOp::Toggle => val.val ^ one,
        };
        self.write_with_out(to, (res, bit))
    }

    fn test(&mut self, val: Value, val2: Value)
        ensures
            final(self).wf() == old(self).wf(),
            final(self)@ == set_r(old(self)@, bit_of(val.val, bit_index(val2.val, val.size))),
    {
        let (_, one) = bit_mask(val2.val, val.size);
        self.cpu.r = bit_of_word(val.val, one);
    }

    /// Writes the sample drawn from the generator, scaled to binary32 by the embedder, and
    /// sets `r` to the raw sample.
    fn rand(&mut self, to: Writable, scaled: u32) -> (r: Result<(), Tx8Error>)
        requires
            old(self).wf(),
        ensures
            final(self).wf(),
            done(
                spec_rand_op(old(self)@, to, FloatResult { value: scaled, remainder: 0 }),
                r,
                old(self)@,
                final(self)@,
            ),
    {
        self.write_natural(to, scaled)?;
        let sample = self.rand.next();
        self.cpu.r = sample;
        Ok(())
    }

    fn rseed(&mut self, val: Value)
        ensures
            final(self).wf() == old(self).wf(),
            final(self)@ == (Machine { seed: val.val, ..old(self)@ }),
    {
        self.rand.set_seed(val.val);
    }

    fn sys_call(&mut self, val: u32) -> (r: Result<Effect, Tx8Error>)
        requires
            old(self).wf(),
        ensures
            final(self).wf(),
            outcome(spec_sys_call_effect(old(self)@, val), r, old(self)@, final(self)@),
    {
        let top = self.memory.read_int(self.cpu.s);
        match sys_call_of(val) {
            None => Err(Tx8Error::InvalidSysCall),
            Some(SysCall::PrintU32) => Ok(Effect::Print(Print::Unsigned(top))),
            Some(SysCall::PrintI32) => Ok(Effect::Print(Print::Signed(top))),
            Some(SysCall::PrintF32) => Ok(Effect::Print(Print::Float(top))),
            Some(SysCall::PrintU8) => Ok(Effect::Print(Print::Byte((top % 0x100) as u8))),
            Some(SysCall::PrintChar) => Ok(Effect::Print(Print::Char((top % 0x100) as u8))),
            Some(SysCall::TestAf) => Ok(Effect::Print(Print::FloatLine(self.cpu.a))),
            Some(SysCall::TestAu) => Ok(Effect::Print(Print::HexLine(self.cpu.a))),
            Some(SysCall::TestAi) => Ok(Effect::Print(Print::SignedLine(self.cpu.a))),
            Some(SysCall::TestRf) => Ok(Effect::Print(Print::FloatLine(self.cpu.r))),
            Some(SysCall::TestR) => Ok(Effect::Print(Print::HexLine(self.cpu.r))),
            Some(SysCall::TestRi) => Ok(Effect::Print(Print::SignedLine(self.cpu.r))),
            Some(SysCall::ReadChar) => {
                if self.input_pos < self.input.len() {
                    self.cpu.o = self.input[self.input_pos] as u32;
                    proof {
                        assert(self.input@.skip(self.input_pos + 1) =~= self.input@.skip(
                            self.input_pos as int,
                        ).drop_first());
                    }
                    self.input_pos = self.input_pos + 1;
                    Ok(Effect::Continue)
                } else {
                    Err(Tx8Error::NoInputGiven)
                }
            },
        }
    }

    /// The binary32 operation that `instr` needs the embedder to compute, if any.
    pub fn float_request(&self, instr: &Instruction) -> (r: Option<FloatRequest>)
        ensures
            r == spec_float_request(self@, *instr),
    {
        let req = |op: FloatOp, lhs: u32, rhs: u32| -> (r: Option<FloatRequest>)
            ensures
                r == request(op, lhs, rhs),
            { Some(FloatRequest { op, lhs, rhs }) };
        match *instr {
            Instruction::Add(_, a, b, Type::Float) => req(FloatOp::Add, a.val, b.val),
            Instruction::Sub(_, a, b, Type::Float) => req(FloatOp::Sub, a.val, b.val),
            Instruction::Mul(_, a, b, Type::Float) => req(FloatOp::Mul, a.val, b.val),
            Instruction::DivMod(_, a, b, Type::Float, _) => req(FloatOp::DivRem, a.val, b.val),
            Instruction::CompareFloat(a, b) => req(FloatOp::Compare, a.val, b.val),
            Instruction::Sin(_, a) => req(FloatOp::Sin, a.val, 0),
            Instruction::Cos(_, a) => req(FloatOp::Cos, a.val, 0),
            Instruction::Tan(_, a) => req(FloatOp::Tan, a.val, 0),
            Instruction::ArcSin(_, a) => req(FloatOp::ArcSin, a.val, 0),
            Instruction::ArcCos(_, a) => req(FloatOp::ArcCos, a.val, 0),
            Instruction::ArcTan(_, a) => req(FloatOp::ArcTan, a.val, 0),
            Instruction::ArcTan2(_, a, b) => req(FloatOp::ArcTan2, a.val, b.val),
            Instruction::Sqrt(_, a) => req(FloatOp::Sqrt, a.val, 0),
            Instruction::Pow(_, a, b) => req(FloatOp::Pow, a.val, b.val),
            Instruction::Exp(_, a) => req(FloatOp::Exp, a.val, 0),
            Instruction::Log(_, a) => req(FloatOp::Log, a.val, 0),
            Instruction::Log2(_, a) => req(FloatOp::Log2, a.val, 0),
            Instruction::Log10(_, a) => req(FloatOp::Log10, a.val, 0),
            Instruction::ItoF(_, a) => req(FloatOp::IntToFloat, a.val, 0),
            Instruction::FtoI(_, a) => req(FloatOp::FloatToInt, a.val, 0),
            Instruction::UtoF(_, a) => req(FloatOp::UintToFloat, a.val, 0),
            Instruction::FtoU(_, a) => req(FloatOp::FloatToUint, a.val, 0),
            Instruction::Rand(_) => req(FloatOp::Normalize, self.rand.peek(), 0),
            _ => None,
        }
    }

    /// Carries out `instr`, decoded with length `len`, taking `float` as the result of the
    /// binary32 operation it needs, if any. The program counter is not advanced.
    #[verifier::rlimit(60)]
    pub fn execute_with(&mut self, instr: Instruction, len: u32, float: FloatResult) -> (r: Result<
        Effect,
        Tx8Error,
    >)
        requires
            old(self).wf(),
        ensures
            final(self).wf(),
            outcome(spec_execute(old(self)@, instr, len, float), r, old(self)@, final(self)@),
    {
        match instr {
            Instruction::Halt => return Ok(Effect::Halted),
            Instruction::Nop => {},
            Instruction::Jump(value, comp) => self.jump(value.val, comp, len),
            Instruction::CompareSigned(val, val2) => self.compare_signed(val, val2.val),
            Instruction::CompareFloat(_, _) => self.compare_float(float.value),
            Instruction::CompareUnsigned(val, val2) => self.compare_unsigned(val.val, val2.val),
            Instruction::Call(val) => self.call(val, len),
            Instruction::SysCall(value) => return self.sys_call(value.val),
            Instruction::Return => self.ret(),
            Instruction::Load(to, val) => self.load(to, val)?,
            Instruction::Push(val) => self.push(val),
            Instruction::Pop(val) => self.pop(val)?,
            Instruction::Add(to, val, val2, kind) => self.add(to, val, val2, kind, float.value)?,
            Instruction::Sub(to, val, val2, kind) => self.sub(to, val, val2, kind, float.value)?,
            Instruction::Mul(to, val, val2, kind) => self.mul(to, val, val2, kind, float.value)?,
            Instruction::DivMod(to, val, val2, kind, is_div) => self.div(
                to,
                val,
                val2,
                kind,
                is_div,
                float,
            )?,
            Instruction::MaxMin(to, val, val2, kind, is_max) => self.max_min(
                to,
                val,
                val2,
                kind,
                is_max,
            )?,
            Instruction::AbsSign(to, val, kind, is_abs) => self.abs_sign(to, val, kind, is_abs)?,
            Instruction::And(to, val, val2) => self.write_natural(to, val.val & val2.val)?,
            Instruction::Or(to, val, val2) => self.write_natural(to, val.val | val2.val)?,
            Instruction::Not(to, val) => self.write_natural(to, !val.val)?,
            Instruction::Nand(to, val, val2) => self.write_natural(to, !(val.val & val2.val))?,
            Instruction::Xor(to, val, val2) => self.write_natural(to, val.val ^ val2.val)?,
            Instruction::ShiftLogicalRight(to, val, val2) => {
                let res = slr_words(val.val, val2.val, to.size());
                self.write_with_out(to, res)?
            },
            Instruction::ShiftArithRight(to, val, val2) => {
                let res = sar_words(val.val, val2.val, to.size());
                self.write_with_out(to, res)?
            },
            Instruction::ShiftLogicLeft(to, val, val2) => {
                let res = sll_words(val.val, val2.val, to.size());
                self.write_with_out(to, res)?
            },
            Instruction::RotateRight(to, val, val2) => {
                let res = ror_word(val.val, val2.val, to.size());
                self.write_natural(to, res)?
            },
            Instruction::RotateLeft(to, val, val2) => {
                let res = rol_word(val.val, val2.val, to.size());
                self.write_natural(to, res)?
            },
            Instruction::SetBit(to, val, val2) => self.bit_op(to, val, val2, BitOp::Raise)?,
            Instruction::Clear(to, val, val2) => self.bit_op(to, val, val2, BitOp::Clear)?,
            Instruction::Toggle(to, val, val2) => self.bit_op(to, val, val2, BitOp::Toggle)?,
            Instruction::Test(val, val2) => self.test(val, val2),
            Instruction::Sin(to, _) => self.write_natural(to, float.value)?,
            Instruction::Cos(to, _) => self.write_natural(to, float.value)?,
            Instruction::Tan(to, _) => self.write_natural(to, float.value)?,
            Instruction::ArcSin(to, _) => self.write_natural(to, float.value)?,
            Instruction::ArcCos(to, _) => self.write_natural(to, float.value)?,
            Instruction::ArcTan(to, _) => self.write_natural(to, float.value)?,
            Instruction::ArcTan2(to, _, _) => self.write_natural(to, float.value)?,
            Instruction::Sqrt(to, _) => self.write_natural(to, float.value)?,
            Instruction::Pow(to, _, _) => self.write_natural(to, float.value)?,
            Instruction::Exp(to, _) => self.write_natural(to, float.value)?,
            Instruction::Log(to, _) => self.write_natural(to, float.value)?,
            Instruction::Log2(to, _) => self.write_natural(to, float.value)?,
            Instruction::Log10(to, _) => self.write_natural(to, float.value)?,
            Instruction::Rand(to) => self.rand(to, float.value)?,
            Instruction::RSeed(val) => self.rseed(val),
            Instruction::ItoF(to, _) => self.write_natural(to, float.value)?,
            Instruction::FtoI(to, _) => self.write_natural(to, float.value)?,
            Instruction::UtoF(to, _) => self.write_natural(to, float.value)?,
            Instruction::FtoU(to, _) => self.write_natural(to, float.value)?,
        };
        Ok(Effect::Continue)
    }

    /// Carries out `instr`, decoded with length `len`. An instruction that needs a binary32
    /// operation is not carried out: its request is returned as `Effect::Float`.
    pub fn execute_instruction(&mut self, instr: Instruction, len: u32) -> (r: Result<Effect, Tx8Error>)
        requires
            old(self).wf(),
        ensures
            final(self).wf(),
            match spec_float_request(old(self)@, instr) {
                Some(req) => r == Ok::<Effect, Tx8Error>(Effect::Float(req)) && final(self)@ == old(
                    self,
                )@,
                None => outcome(
                    spec_execute(old(self)@, instr, len, no_float()),
                    r,
                    old(self)@,
                    final(self)@,
                ),
            },
    {
        match self.float_request(&instr) {
            Some(req) => Ok(Effect::Float(req)),
            None => self.execute_with(instr, len, FloatResult { value: 0, remainder: 0 }),
        }
    }

    /// Moves the program counter past an instruction of length `len` that does not set it.
    fn advance(&mut self, instr: &Instruction, len: u32)
        ensures
            final(self).wf() == old(self).wf(),
            final(self)@ == if spec_advances(*instr) {
                with_cpu(old(self)@, Cpu { p: old(self)@.cpu.p.wrapping_add(len), ..old(self)@.cpu })
            } else {
                old(self)@
            },
    {
        if instr.increase_program_counter() {
            self.cpu.p = self.cpu.p.wrapping_add(len);
        }
    }

    /// One step: decodes the instruction at the program counter and carries it out. An
    /// instruction that needs a binary32 operation is left undone and its request returned
    /// as `Effect::Float`; `resume_float` then completes the step.
    pub fn next_step(&mut self) -> (r: Result<Effect, Tx8Error>)
        requires
            old(self).wf(),
        ensures
            final(self).wf(),
            match spec_decode(old(self)@.cpu, old(self)@.mem, old(self)@.cpu.p) {
                Err(e) => r == Err::<Effect, Tx8Error>(e) && final(self)@ == old(self)@,
                Ok((i, _)) => match spec_float_request(old(self)@, i) {
                    Some(req) => r == Ok::<Effect, Tx8Error>(Effect::Float(req)) && final(self)@
                        == old(self)@,
                    None => outcome(spec_step(old(self)@, no_float()), r, old(self)@, final(self)@),
                },
            },
    {
        let (instruction, len) = parse_instruction(&self.cpu, &self.memory, self.cpu.p)?;
        if let Some(req) = self.float_request(&instruction) {
            return Ok(Effect::Float(req));
        }
        let effect = self.execute_with(instruction, len, FloatResult { value: 0, remainder: 0 })?;
        self.advance(&instruction, len);
        Ok(effect)
    }

    /// Completes the step that `next_step` left undone, `float` being the result of the
    /// requested binary32 operation.
    pub fn resume_float(&mut self, float: FloatResult) -> (r: Result<Effect, Tx8Error>)
        requires
            old(self).wf(),
        ensures
            final(self).wf(),
            outcome(spec_step(old(self)@, float), r, old(self)@, final(self)@),
    {
        let (instruction, len) = parse_instruction(&self.cpu, &self.memory, self.cpu.p)?;
        let effect = self.execute_with(instruction, len, float)?;
        self.advance(&instruction, len);
        Ok(effect)
    }
}

} // verus!
