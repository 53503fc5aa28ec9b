use crate::errors::Tx8Error;
use crate::hardware::{
    spec_read_24bit, spec_read_byte, spec_read_int, spec_read_short, spec_write_byte, spec_write_int,
    spec_write_short, Cpu, Memory,
};
use vstd::arithmetic::div_mod::{lemma_fundamental_div_mod, lemma_mod_bound, lemma_small_mod};
use vstd::prelude::*;

verus! {

/// How an operand is encoded after the parameter-mode byte (one nibble each).
#[derive(Clone, Copy, Debug, PartialEq, Eq, Structural)]
pub enum ParameterMode {
    Unused,
    Constant8,
    Constant16,
    Constant32,
    AbsoluteAddress,
    RelativeAddress,
    Register,
    RegisterAddress,
}

pub open spec fn spec_par_mode(nibble: u8) -> Result<ParameterMode, Tx8Error> {
    if nibble == 0 {
        Ok(ParameterMode::Unused)
    } else if nibble == 1 {
        Ok(ParameterMode::Constant8)
    } else if nibble == 2 {
        Ok(ParameterMode::Constant16)
    } else if nibble == 3 {
        Ok(ParameterMode::Constant32)
    } else if nibble == 4 {
        Ok(ParameterMode::AbsoluteAddress)
    } else if nibble == 5 {
        Ok(ParameterMode::RelativeAddress)
    } else if nibble == 6 {
        Ok(ParameterMode::Register)
    } else if nibble == 7 {
        Ok(ParameterMode::RegisterAddress)
    } else {
        Err(Tx8Error::InstructionError)
    }
}

/// Number of bytes an operand of this mode occupies in the instruction stream.
pub open spec fn footprint(mode: ParameterMode) -> nat {
    match mode {
        ParameterMode::Unused => 0,
        ParameterMode::Constant8 => 1,
        ParameterMode::Constant16 => 2,
        ParameterMode::Constant32 => 4,
        ParameterMode::AbsoluteAddress => 3,
        ParameterMode::RelativeAddress => 3,
        ParameterMode::Register => 1,
        ParameterMode::RegisterAddress => 1,
    }
}

pub fn parse_par_mode(byte: u8) -> (r: Result<ParameterMode, Tx8Error>)
    ensures
        r == spec_par_mode(byte),
{
    match byte {
        0x0 => Ok(ParameterMode::Unused),
        0x1 => Ok(ParameterMode::Constant8),
        0x2 => Ok(ParameterMode::Constant16),
        0x3 => Ok(ParameterMode::Constant32),
        0x4 => Ok(ParameterMode::AbsoluteAddress),
        0x5 => Ok(ParameterMode::RelativeAddress),
        0x6 => Ok(ParameterMode::Register),
        0x7 => Ok(ParameterMode::RegisterAddress),
        _ => Err(Tx8Error::InstructionError),
    }
}

/// A raw operand as read from the instruction stream.
#[derive(Clone, Copy, Debug, PartialEq, Eq, Structural)]
pub enum Parameter {
    Unused,
    Constant8(u8),
    Constant16(u16),
    Constant32(u32),
    AbsoluteAddress(u32),
    RelativeAddress(u32),
    Register(u8),
    RegisterAddress(u8),
}

/// The operand of mode `mode` encoded at `ptr`.
pub open spec fn spec_parameter(m: Seq<u8>, ptr: u32, mode: ParameterMode) -> Parameter {
    match mode {
        ParameterMode::Unused => Parameter::Unused,
        ParameterMode::Constant8 => Parameter::Constant8(spec_read_byte(m, ptr)),
        ParameterMode::Constant16 => Parameter::Constant16(spec_read_short(m, ptr)),
        ParameterMode::Constant32 => Parameter::Constant32(spec_read_int(m, ptr)),
        ParameterMode::AbsoluteAddress => Parameter::AbsoluteAddress(spec_read_24bit(m, ptr)),
        ParameterMode::RelativeAddress => Parameter::RelativeAddress(spec_read_24bit(m, ptr)),
        ParameterMode::Register => Parameter::Register(spec_read_byte(m, ptr)),
        ParameterMode::RegisterAddress => Parameter::RegisterAddress(spec_read_byte(m, ptr)),
    }
}

/// Reads the operand of mode `par_mode` at `ptr`, with the number of bytes it occupies.
pub fn parse_parameter(mem: &Memory, ptr: u32, par_mode: ParameterMode) -> (r: (Parameter, u32))
    requires
        mem.wf(),
    ensures
        r.0 == spec_parameter(mem@, ptr, par_mode),
        r.1 == footprint(par_mode),
{
    match par_mode {
        ParameterMode::Unused => (Parameter::Unused, 0),
        ParameterMode::Constant8 => (Parameter::Constant8(mem.read_byte(ptr)), 1),
        ParameterMode::Constant16 => (Parameter::Constant16(mem.read_short(ptr)), 2),
        ParameterMode::Constant32 => (Parameter::Constant32(mem.read_int(ptr)), 4),
        ParameterMode::AbsoluteAddress => (Parameter::AbsoluteAddress(mem.read_24bit(ptr)), 3),
        ParameterMode::RelativeAddress => (Parameter::RelativeAddress(mem.read_24bit(ptr)), 3),
        ParameterMode::Register => (Parameter::Register(mem.read_byte(ptr)), 1),
        ParameterMode::RegisterAddress => (Parameter::RegisterAddress(mem.read_byte(ptr)), 1),
    }
}

/// Operand width.
#[derive(Clone, Copy, Debug, PartialEq, Eq, Structural)]
pub enum Size {
    Byte,
    Short,
    Int,
}

impl Size {
    pub open spec fn nbytes(self) -> nat {
        match self {
            Size::Byte => 1,
            Size::Short => 2,
            Size::Int => 4,
        }
    }

    /// 2 to the number of bits of this width.
    pub open spec fn modulus(self) -> int {
        match self {
            Size::Byte => 0x100,
            Size::Short => 0x10000,
            Size::Int => 0x1_0000_0000,
        }
    }

    pub fn bytes(&self) -> (n: u32)
        ensures
            n == self.nbytes(),
    {
        match self {
            Size::Byte => 1,
            Size::Short => 2,
            Size::Int => 4,
        }
    }
}

/// The low bits of `v` that fit into width `s`.
pub open spec fn low(v: u32, s: Size) -> u32 {
    (v as int % s.modulus()) as u32
}

/// What `low` is as arithmetic: the remainder modulo the width's modulus.
pub proof fn lemma_low(v: u32, s: Size)
    ensures
        low(v, s) as int == v as int % s.modulus(),
        low(v, s) < s.modulus(),
        low(v, s) <= v,
        s == Size::Int ==> low(v, s) == v,
{
    lemma_mod_bound(v as int, s.modulus());
    lemma_fundamental_div_mod(v as int, s.modulus());
    if s == Size::Int {
        lemma_small_mod(v as nat, 0x1_0000_0000);
    }
    assert(v as int - v as int % s.modulus() == s.modulus() * (v as int / s.modulus()));
    assert(v as int / s.modulus() >= 0) by {
        vstd::arithmetic::div_mod::lemma_div_pos_is_pos(v as int, s.modulus());
    }
    assert(s.modulus() * (v as int / s.modulus()) >= 0) by (nonlinear_arith)
        requires
            s.modulus() > 0,
            v as int / s.modulus() >= 0,
    ;
}

/// `v`, taken as a two's-complement number of width `s`, extended to 32 bits.
pub open spec fn sign_extend(v: u32, s: Size) -> u32 {
    let x = low(v, s) as int;
    if x >= s.modulus() / 2 {
        (x + 0x1_0000_0000 - s.modulus()) as u32
    } else {
        x as u32
    }
}

/// `v` with its low bits of width `s` replaced by those of `val`.
pub open spec fn merge(v: u32, val: u32, s: Size) -> u32 {
    (v - low(v, s) + low(val, s)) as u32
}

/// A register byte names a register in its low nibble (0 to 7) and a width in its high
/// nibble (0: all 32 bits, 1: low 8 bits, 2: low 16 bits).
pub open spec fn reg_valid(byte: u8) -> bool {
    byte % 16 < 8 && byte / 16 < 3
}

pub open spec fn reg_index(byte: u8) -> int {
    (byte % 16) as int
}

/// Width of a register byte; `Int` where the high nibble names no width.
pub open spec fn reg_size(byte: u8) -> Size {
    if byte / 16 == 1 {
        Size::Byte
    } else if byte / 16 == 2 {
        Size::Short
    } else {
        Size::Int
    }
}

/// The value of the register alias that `byte` names, at the alias's width.
pub open spec fn reg_value(cpu: Cpu, byte: u8) -> u32 {
    low(cpu.reg(reg_index(byte)), reg_size(byte))
}

/// The value of width `s` at `ptr`, zero-extended.
pub open spec fn read_sized(m: Seq<u8>, ptr: u32, s: Size) -> u32 {
    match s {
        Size::Byte => spec_read_byte(m, ptr) as u32,
        Size::Short => spec_read_short(m, ptr) as u32,
        Size::Int => spec_read_int(m, ptr),
    }
}

/// `m` with the low bytes of `val` of width `s` stored at `ptr`.
pub open spec fn write_sized(m: Seq<u8>, ptr: u32, val: u32, s: Size) -> Seq<u8> {
    match s {
        Size::Byte => spec_write_byte(m, ptr, (val % 0x100) as u8),
        Size::Short => spec_write_short(m, ptr, (val % 0x10000) as u16),
        Size::Int => spec_write_int(m, ptr, val),
    }
}

fn get_reg_size(byte: u8) -> (s: Size)
    ensures
        s == reg_size(byte),
{
    match byte / 16 {
        1 => Size::Byte,
        2 => Size::Short,
        _ => Size::Int,
    }
}

fn check_reg(byte: u8) -> (r: Result<u8, Tx8Error>)
    ensures
        reg_valid(byte) ==> r == Ok::<u8, Tx8Error>((byte % 16) as u8),
        !reg_valid(byte) ==> r == Err::<u8, Tx8Error>(Tx8Error::InvalidRegister),
{
    if byte % 16 < 8 && byte / 16 < 3 {
        Ok(byte % 16)
    } else {
        Err(Tx8Error::InvalidRegister)
    }
}

proof fn lemma_merge_fits(v: u32, val: u32)
    by (bit_vector)
    ensures
        v - v % 0x100 + val % 0x100 <= 0xffff_ffff,
        v - v % 0x10000 + val % 0x10000 <= 0xffff_ffff,
{
}

fn low_of(v: u32, s: Size) -> (r: u32)
    ensures
        r == low(v, s),
{
    match s {
        Size::Byte => v % 0x100,
        Size::Short => v % 0x10000,
        Size::Int => v,
    }
}

fn sign_extend_of(v: u32, s: Size) -> (r: u32)
    ensures
        r == sign_extend(v, s),
{
    match s {
        Size::Byte => {
            let x = v % 0x100;
            if x >= 0x80 {
                x + 0xffff_ff00
            } else {
                x
            }
        },
        Size::Short => {
            let x = v % 0x10000;
            if x >= 0x8000 {
                x + 0xffff_0000
            } else {
                x
            }
        },
        Size::Int => v,
    }
}

pub(crate) fn read_sized_of(mem: &Memory, ptr: u32, s: Size) -> (r: u32)
    requires
        mem.wf(),
    ensures
        r == read_sized(mem@, ptr, s),
{
    match s {
        Size::Byte => mem.read_byte(ptr) as u32,
        Size::Short => mem.read_short(ptr) as u32,
        Size::Int => mem.read_int(ptr),
    }
}

pub(crate) fn write_sized_of(mem: &mut Memory, ptr: u32, val: u32, s: Size)
    requires
        old(mem).wf(),
    ensures
        final(mem).wf(),
        final(mem)@ == write_sized(old(mem)@, ptr, val, s),
{
    match s {
        Size::Byte => mem.write_byte(ptr, (val % 0x100) as u8),
        Size::Short => mem.write_short(ptr, (val % 0x10000) as u16),
        Size::Int => mem.write_int(ptr, val),
    }
}

/// A readable operand: its bits in a 32-bit carrier and its width.
#[derive(Clone, Copy, Debug, PartialEq, Eq, Structural)]
pub struct Value {
    pub val: u32,
    pub size: Size,
}

/// The operand `par` resolved against the machine state, memory being read at width `mem_size`.
pub open spec fn spec_value(par: Parameter, cpu: Cpu, m: Seq<u8>, mem_size: Size) -> Result<
    Value,
    Tx8Error,
> {
    match par {
        Parameter::Unused => Err(Tx8Error::InstructionError),
        Parameter::Constant8(x) => Ok(Value { val: x as u32, size: Size::Byte }),
        Parameter::Constant16(x) => Ok(Value { val: x as u32, size: Size::Short }),
        Parameter::Constant32(x) => Ok(Value { val: x, size: Size::Int }),
        Parameter::AbsoluteAddress(ptr) => Ok(
            Value { val: read_sized(m, ptr, mem_size), size: mem_size },
        ),
        Parameter::RelativeAddress(ptr) => Ok(
            Value { val: read_sized(m, ptr.wrapping_add(cpu.o), mem_size), size: mem_size },
        ),
        Parameter::Register(r) => if reg_valid(r) {
            Ok(Value { val: reg_value(cpu, r), size: reg_size(r) })
        } else {
            Err(Tx8Error::InvalidRegister)
        },
        Parameter::RegisterAddress(r) => if reg_valid(r) {
            Ok(Value { val: read_sized(m, reg_value(cpu, r), mem_size), size: mem_size })
        } else {
            Err(Tx8Error::InvalidRegister)
        },
    }
}

/// Like `spec_value`, with the value sign-extended from its width to 32 bits.
pub open spec fn spec_value_signed(par: Parameter, cpu: Cpu, m: Seq<u8>, mem_size: Size) -> Result<
    Value,
    Tx8Error,
> {
    match spec_value(par, cpu, m, mem_size) {
        Ok(v) => Ok(Value { val: sign_extend(v.val, v.size), size: v.size }),
        Err(e) => Err(e),
    }
}

impl Value {
    pub fn new(val: u32, size: Size) -> (v: Value)
        ensures
            v == (Value { val, size }),
    {
        Value { val, size }
    }

    pub fn from_par(par: Parameter, cpu: &Cpu, mem: &Memory, mem_size: Size) -> (r: Result<
        Self,
        Tx8Error,
    >)
        requires
            mem.wf(),
        ensures
            r == spec_value(par, *cpu, mem@, mem_size),
    {
        match par {
            Parameter::Unused => Err(Tx8Error::InstructionError),
            Parameter::Constant8(x) => Ok(Value::new(x as u32, Size::Byte)),
            Parameter::Constant16(x) => Ok(Value::new(x as u32, Size::Short)),
            Parameter::Constant32(x) => Ok(Value::new(x, Size::Int)),
            Parameter::AbsoluteAddress(ptr) => Ok(
                Value::new(read_sized_of(mem, ptr, mem_size), mem_size),
            ),
            Parameter::RelativeAddress(ptr) => Ok(
                Value::new(read_sized_of(mem, ptr.wrapping_add(cpu.o), mem_size), mem_size),
            ),
            Parameter::Register(r) => {
                let i = check_reg(r)?;
                let size = get_reg_size(r);
                Ok(Value::new(low_of(cpu.get_reg(i), size), size))
            },
            Parameter::RegisterAddress(r) => {
                let i = check_reg(r)?;
                let ptr = low_of(cpu.get_reg(i), get_reg_size(r));
                Ok(Value::new(read_sized_of(mem, ptr, mem_size), mem_size))
            },
        }
    }

    pub fn from_par_signed(par: Parameter, cpu: &Cpu, mem: &Memory, mem_size: Size) -> (r: Result<
        Self,
        Tx8Error,
    >)
        requires
            mem.wf(),
        ensures
            r == spec_value_signed(par, *cpu, mem@, mem_size),
    {
        let v = Value::from_par(par, cpu, mem, mem_size)?;
        Ok(Value::new(sign_extend_of(v.val, v.size), v.size))
    }
}

/// What a write through a location did: the new memory and registers, or the error, in
/// which case nothing changed.
pub open spec fn stored(
    expected: Result<(Seq<u8>, Cpu), Tx8Error>,
    r: Result<(), Tx8Error>,
    m0: Seq<u8>,
    c0: Cpu,
    m1: Seq<u8>,
    c1: Cpu,
) -> bool {
    match expected {
        Ok((m, c)) => r is Ok && m1 == m && c1 == c,
        Err(e) => r == Err::<(), Tx8Error>(e) && m1 == m0 && c1 == c0,
    }
}

/// A location that can be written: memory or a register alias.
pub trait Write: Sized {
    /// The natural width of the location.
    spec fn spec_size(&self) -> Size;

    /// Memory and registers after storing the low bytes of `val` of width `size`.
    spec fn spec_store(&self, m: Seq<u8>, cpu: Cpu, val: u32, size: Size) -> Result<
        (Seq<u8>, Cpu),
        Tx8Error,
    >;

    /// Stores `val` at the natural width.
    fn write(self, mem: &mut Memory, cpu: &mut Cpu, val: u32) -> (r: Result<(), Tx8Error>)
        requires
            old(mem).wf(),
        ensures
            final(mem).wf(),
            stored(
                self.spec_store(old(mem)@, *old(cpu), val, self.spec_size()),
                r,
                old(mem)@,
                *old(cpu),
                final(mem)@,
                *final(cpu),
            ),
    ;

    /// Stores `val` at width `size`.
    fn write_size(self, mem: &mut Memory, cpu: &mut Cpu, val: u32, size: Size) -> (r: Result<
        (),
        Tx8Error,
    >)
        requires
            old(mem).wf(),
        ensures
            final(mem).wf(),
            stored(
                self.spec_store(old(mem)@, *old(cpu), val, size),
                r,
                old(mem)@,
                *old(cpu),
                final(mem)@,
                *final(cpu),
            ),
    ;

    fn size(&self) -> (s: Size)
        ensures
            s == self.spec_size(),
    ;
}

/// Memory at a 24-bit address.
#[derive(Clone, Copy, Debug, PartialEq, Eq, Structural)]
pub struct AbsoluteAddress(pub u32);

impl Write for AbsoluteAddress {
    open spec fn spec_size(&self) -> Size {
        Size::Int
    }

    open spec fn spec_store(&self, m: Seq<u8>, cpu: Cpu, val: u32, size: Size) -> Result<
        (Seq<u8>, Cpu),
        Tx8Error,
    > {
        Ok((write_sized(m, self.0, val, size), cpu))
    }

    fn write(self, mem: &mut Memory, cpu: &mut Cpu, val: u32) -> (r: Result<(), Tx8Error>) {
        self.write_size(mem, cpu, val, Size::Int)
    }

    fn size(&self) -> (s: Size) {
        Size::Int
    }

    fn write_size(self, mem: &mut Memory, cpu: &mut Cpu, val: u32, size: Size) -> (r: Result<
        (),
        Tx8Error,
    >) {
        write_sized_of(mem, self.0, val, size);
        Ok(())
    }
}

/// Memory at a 24-bit address relative to register `o`.
#[derive(Clone, Copy, Debug, PartialEq, Eq, Structural)]
pub struct RelativeAddress(pub u32);

impl Write for RelativeAddress {
    open spec fn spec_size(&self) -> Size {
        Size::Int
    }

    open spec fn spec_store(&self, m: Seq<u8>, cpu: Cpu, val: u32, size: Size) -> Result<
        (Seq<u8>, Cpu),
        Tx8Error,
    > {
        Ok((write_sized(m, self.0.wrapping_add(cpu.o), val, size), cpu))
    }

    fn write(self, mem: &mut Memory, cpu: &mut Cpu, val: u32) -> (r: Result<(), Tx8Error>) {
        self.write_size(mem, cpu, val, Size::Int)
    }

    fn size(&self) -> (s: Size) {
        Size::Int
    }

    fn write_size(self, mem: &mut Memory, cpu: &mut Cpu, val: u32, size: Size) -> (r: Result<
        (),
        Tx8Error,
    >) {
        let ptr = self.0.wrapping_add(cpu.o);
        write_sized_of(mem, ptr, val, size);
        Ok(())
    }
}

/// A register alias, named by a register byte.
#[derive(Clone, Copy, Debug, PartialEq, Eq, Structural)]
pub struct Register(pub u8);

impl Write for Register {
    open spec fn spec_size(&self) -> Size {
        reg_size(self.0)
    }

    open spec fn spec_store(&self, m: Seq<u8>, cpu: Cpu, val: u32, size: Size) -> Result<
        (Seq<u8>, Cpu),
        Tx8Error,
    > {
        if reg_valid(self.0) {
            let i = reg_index(self.0);
            Ok((m, cpu.with_reg(i, merge(cpu.reg(i), val, size))))
        } else {
            Err(Tx8Error::InvalidRegister)
        }
    }

    fn write(self, mem: &mut Memory, cpu: &mut Cpu, val: u32) -> (r: Result<(), Tx8Error>) {
        let size = get_reg_size(self.0);
        self.write_size(mem, cpu, val, size)
    }

    fn size(&self) -> (s: Size) {
        get_reg_size(self.0)
    }

    fn write_size(self, mem: &mut Memory, cpu: &mut Cpu, val: u32, size: Size) -> (r: Result<
        (),
        Tx8Error,
    >) {
        let i = check_reg(self.0)?;
        let v = cpu.get_reg(i);
        proof {
            lemma_merge_fits(v, val);
            lemma_low(v, size);
            lemma_low(val, size);
        }
        let merged = match size {
            Size::Byte => v - v % 0x100 + val % 0x100,
            Size::Short => v - v % 0x10000 + val % 0x10000,
            Size::Int => val,
        };
        cpu.set_reg(i, merged);
        Ok(())
    }
}

/// Memory at the address held in a register alias.
#[derive(Clone, Copy, Debug, PartialEq, Eq, Structural)]
pub struct RegisterAddress(pub u8);

impl Write for RegisterAddress {
    open spec fn spec_size(&self) -> Size {
        Size::Int
    }

    open spec fn spec_store(&self, m: Seq<u8>, cpu: Cpu, val: u32, size: Size) -> Result<
        (Seq<u8>, Cpu),
        Tx8Error,
    > {
        if reg_valid(self.0) {
            Ok((write_sized(m, reg_value(cpu, self.0), val, size), cpu))
        } else {
            Err(Tx8Error::InvalidRegister)
        }
    }

    fn write(self, mem: &mut Memory, cpu: &mut Cpu, val: u32) -> (r: Result<(), Tx8Error>) {
        self.write_size(mem, cpu, val, Size::Int)
    }

    fn size(&self) -> (s: Size) {
        Size::Int
    }

    fn write_size(self, mem: &mut Memory, cpu: &mut Cpu, val: u32, size: Size) -> (r: Result<
        (),
        Tx8Error,
    >) {
        let i = check_reg(self.0)?;
        let ptr = low_of(cpu.get_reg(i), get_reg_size(self.0));
        write_sized_of(mem, ptr, val, size);
        Ok(())
    }
}

/// A writable operand.
#[derive(Clone, Copy, Debug, PartialEq, Eq, Structural)]
pub enum Writable {
    AbsoluteAddress(AbsoluteAddress),
    RelativeAddress(RelativeAddress),
    Register(Register),
    RegisterAddress(RegisterAddress),
}

/// The location that operand `par` designates; constants and the unused operand are none.
pub open spec fn spec_writable(par: Parameter) -> Result<Writable, Tx8Error> {
    match par {
        Parameter::AbsoluteAddress(x) => Ok(Writable::AbsoluteAddress(AbsoluteAddress(x))),
        Parameter::RelativeAddress(x) => Ok(Writable::RelativeAddress(RelativeAddress(x))),
        Parameter::Register(x) => Ok(Writable::Register(Register(x))),
        Parameter::RegisterAddress(x) => Ok(Writable::RegisterAddress(RegisterAddress(x))),
        _ => Err(Tx8Error::InstructionError),
    }
}

impl Writable {
    pub fn from_par(par: Parameter) -> (r: Result<Writable, Tx8Error>)
        ensures
            r == spec_writable(par),
    {
        match par {
            Parameter::Unused => Err(Tx8Error::InstructionError),
            Parameter::Constant8(_) => Err(Tx8Error::InstructionError),
            Parameter::Constant16(_) => Err(Tx8Error::InstructionError),
            Parameter::Constant32(_) => Err(Tx8Error::InstructionError),
            Parameter::AbsoluteAddress(x) => Ok(Writable::AbsoluteAddress(AbsoluteAddress(x))),
            Parameter::RelativeAddress(x) => Ok(Writable::RelativeAddress(RelativeAddress(x))),
            Parameter::Register(x) => Ok(Writable::Register(Register(x))),
            Parameter::RegisterAddress(x) => Ok(Writable::RegisterAddress(RegisterAddress(x))),
        }
    }
}

impl Write for Writable {
    open spec fn spec_size(&self) -> Size {
        match self {
            Writable::AbsoluteAddress(x) => x.spec_size(),
            Writable::RelativeAddress(x) => x.spec_size(),
            Writable::Register(x) => x.spec_size(),
            Writable::RegisterAddress(x) => x.spec_size(),
        }
    }

    open spec fn spec_store(&self, m: Seq<u8>, cpu: Cpu, val: u32, size: Size) -> Result<
        (Seq<u8>, Cpu),
        Tx8Error,
    > {
        match self {
            Writable::AbsoluteAddress(x) => x.spec_store(m, cpu, val, size),
            Writable::RelativeAddress(x) => x.spec_store(m, cpu, val, size),
            Writable::Register(x) => x.spec_store(m, cpu, val, size),
            Writable::RegisterAddress(x) => x.spec_store(m, cpu, val, size),
        }
    }

    fn write(self, mem: &mut Memory, cpu: &mut Cpu, val: u32) -> (r: Result<(), Tx8Error>) {
        match self {
            Writable::AbsoluteAddress(x) => x.write(mem, cpu, val),
            Writable::RelativeAddress(x) => x.write(mem, cpu, val),
            Writable::Register(x) => x.write(mem, cpu, val),
            Writable::RegisterAddress(x) => x.write(mem, cpu, val),
        }
    }

    fn size(&self) -> (s: Size) {
        match self {
            Writable::AbsoluteAddress(x) => x.size(),
            Writable::RelativeAddress(x) => x.size(),
            Writable::Register(x) => x.size(),
            Writable::RegisterAddress(x) => x.size(),
        }
    }

    fn write_size(self, mem: &mut Memory, cpu: &mut Cpu, val: u32, size: Size) -> (r: Result<
        (),
        Tx8Error,
    >) {
        match self {
            Writable::AbsoluteAddress(x) => x.write_size(mem, cpu, val, size),
            Writable::RelativeAddress(x) => x.write_size(mem, cpu, val, size),
            Writable::Register(x) => x.write_size(mem, cpu, val, size),
            Writable::RegisterAddress(x) => x.write_size(mem, cpu, val, size),
        }
    }
}

} // verus!
