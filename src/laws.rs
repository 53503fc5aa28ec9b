//! Properties of the machine that hold for all inputs, stated over the specifications that
//! the executable functions meet.
use crate::execution::{spec_execute, spec_pop, spec_push, FloatResult, Machine};
use crate::hardware::{
    addr, spec_read_24bit, spec_read_byte, spec_read_int, spec_read_short, spec_write_byte,
    spec_write_int, spec_write_short, write_index, Cpu, MEMORY_SIZE,
};
use crate::instruction::Instruction;
use crate::parameter::{
    lemma_low, low, merge, read_sized, reg_index, reg_size, reg_valid, reg_value, write_sized,
    AbsoluteAddress, Register, Size, Value, Writable, Write,
};
use crate::semantics::{abs, as_signed, spec_div, to_word, trunc_div, trunc_rem};
use vstd::arithmetic::div_mod::{lemma_fundamental_div_mod, lemma_mod_multiples_vanish};
use vstd::prelude::*;

verus! {

proof fn lemma_word_bytes(v: u32)
    by (bit_vector)
    ensures
        v == (v % 256) + 256 * (v / 0x100 % 256) + 0x10000 * (v / 0x10000 % 256) + 0x1000000 * (v
            / 0x1000000 % 256),
        v / 0x1000000 < 256,
{
}

/// Writing a word and reading it back at the same address gives the word, wherever its
/// four bytes lie below the end of the address space.
pub proof fn lemma_write_read_int(m: Seq<u8>, ptr: u32, v: u32)
    requires
        m.len() == MEMORY_SIZE,
        addr(ptr) <= MEMORY_SIZE - 4,
    ensures
        spec_read_int(spec_write_int(m, ptr, v), ptr) == v,
{
    lemma_word_bytes(v);
    assert(write_index(ptr, 1) == addr(ptr) + 1);
    assert(write_index(ptr, 2) == addr(ptr) + 2);
    assert(write_index(ptr, 3) == addr(ptr) + 3);
}

/// Writing a value of width `s` and reading it back at the same width and address gives
/// its low bytes, wherever they lie below the end of the address space.
pub proof fn lemma_write_read_sized(m: Seq<u8>, ptr: u32, v: u32, s: Size)
    requires
        m.len() == MEMORY_SIZE,
        addr(ptr) + s.nbytes() <= MEMORY_SIZE,
    ensures
        read_sized(write_sized(m, ptr, v, s), ptr, s) == low(v, s),
{
    match s {
        Size::Byte => {},
        Size::Short => {
            assert(write_index(ptr, 1) == addr(ptr) + 1);
            let x = v % 0x10000;
            assert(x % 256 + 256 * (x / 256) == x);
        },
        Size::Int => lemma_write_read_int(m, ptr, v),
    }
}

proof fn lemma_truncate(ptr: u32)
    by (bit_vector)
    ensures
        ptr & 0xffffff == ptr % 0x1000000,
        (ptr & 0xffffff) % 0x1000000 == ptr % 0x1000000,
{
}

/// Every memory operation on a pointer is the same operation on the pointer's low 24 bits.
pub proof fn lemma_pointer_truncation(m: Seq<u8>, ptr: u32, b: u8, h: u16, w: u32)
    ensures
        addr(ptr) == (ptr & 0xffffff) as int,
        spec_read_byte(m, ptr) == spec_read_byte(m, ptr & 0xffffff),
        spec_read_short(m, ptr) == spec_read_short(m, ptr & 0xffffff),
        spec_read_24bit(m, ptr) == spec_read_24bit(m, ptr & 0xffffff),
        spec_read_int(m, ptr) == spec_read_int(m, ptr & 0xffffff),
        spec_write_byte(m, ptr, b) == spec_write_byte(m, ptr & 0xffffff, b),
        spec_write_short(m, ptr, h) == spec_write_short(m, ptr & 0xffffff, h),
        spec_write_int(m, ptr, w) == spec_write_int(m, ptr & 0xffffff, w),
{
    lemma_truncate(ptr);
}

proof fn lemma_merge_bits(x: u32, y: u32)
    by (bit_vector)
    ensures
        ((x - x % 0x100 + y % 0x100) as u32) & 0xffff_ff00 == x & 0xffff_ff00,
        ((x - x % 0x100 + y % 0x100) as u32) & 0xff == y & 0xff,
        ((x - x % 0x10000 + y % 0x10000) as u32) & 0xffff_0000 == x & 0xffff_0000,
        ((x - x % 0x10000 + y % 0x10000) as u32) & 0xffff == y & 0xffff,
{
}

/// Writing `v` to the 8-bit alias of a register keeps bits 8 to 31 and sets bits 0 to 7
/// to those of `v`; writing to the 16-bit alias keeps bits 16 to 31 and sets bits 0 to 15.
/// No other register changes.
pub proof fn lemma_register_aliasing(m: Seq<u8>, cpu: Cpu, byte: u8, v: u32)
    requires
        reg_valid(byte),
    ensures
        ({
            let i = reg_index(byte);
            let w = Register(byte);
            w.spec_store(m, cpu, v, w.spec_size()) matches Ok((m2, c)) && m2 == m && (forall|
                j: int,
            | 0 <= j < 8 && j != i ==> #[trigger] c.reg(j) == cpu.reg(j)) && (reg_size(byte)
                == Size::Byte ==> c.reg(i) & 0xffff_ff00 == cpu.reg(i) & 0xffff_ff00 && c.reg(i)
                & 0xff == v & 0xff) && (reg_size(byte) == Size::Short ==> c.reg(i) & 0xffff_0000
                == cpu.reg(i) & 0xffff_0000 && c.reg(i) & 0xffff == v & 0xffff) && (reg_size(byte)
                == Size::Int ==> c.reg(i) == v)
        }),
{
    lemma_merge_bits(cpu.reg(reg_index(byte)), v);
}

proof fn lemma_low_of_merge(x: u32, y: u32, s: Size)
    ensures
        low(merge(x, y, s), s) == low(y, s),
{
    let mm = s.modulus();
    lemma_fundamental_div_mod(x as int, mm);
    let q = x as int / mm;
    assert(x - low(x, s) == mm * q);
    lemma_mod_multiples_vanish(q, low(y, s) as int, mm);
}

/// Pushing `v` and popping into a register alias of the same width restores the stack
/// pointer and leaves the low bits of `v` in the alias. The alias must not be one of `s`,
/// and the pushed bytes must lie below the end of the address space.
pub proof fn lemma_push_pop(m: Machine, v: Value, byte: u8)
    requires
        m.mem.len() == MEMORY_SIZE,
        reg_valid(byte),
        reg_index(byte) != 7,
        reg_size(byte) == v.size,
        addr(m.cpu.s.wrapping_sub(v.size.nbytes() as u32)) + v.size.nbytes() <= MEMORY_SIZE,
    ensures
        spec_pop(spec_push(m, v), Writable::Register(Register(byte))) matches Ok(m2) && m2.cpu.s
            == m.cpu.s && reg_value(m2.cpu, byte) == low(v.val, v.size),
{
    let pushed = spec_push(m, v);
    lemma_write_read_sized(m.mem, pushed.cpu.s, v.val, v.size);
    let i = reg_index(byte);
    lemma_low_of_merge(pushed.cpu.reg(i), low(v.val, v.size), v.size);
    assert(low(low(v.val, v.size), v.size) == low(v.val, v.size));
}

/// Pushing a word and popping it into memory restores the stack pointer and leaves the
/// word at the destination, where both the pushed bytes and the destination lie below the
/// end of the address space.
pub proof fn lemma_push_pop_to_memory(m: Machine, v: Value, dst: u32)
    requires
        m.mem.len() == MEMORY_SIZE,
        v.size == Size::Int,
        addr(m.cpu.s.wrapping_sub(4)) <= MEMORY_SIZE - 4,
        addr(dst) <= MEMORY_SIZE - 4,
    ensures
        spec_pop(spec_push(m, v), Writable::AbsoluteAddress(AbsoluteAddress(dst))) matches Ok(m2)
            && m2.cpu.s == m.cpu.s && spec_read_int(m2.mem, dst) == v.val,
{
    let pushed = spec_push(m, v);
    lemma_write_read_int(m.mem, pushed.cpu.s, v.val);
    lemma_write_read_int(pushed.mem, dst, v.val);
}

proof fn lemma_word_of_small(x: int)
    requires
        -0x8000_0000 <= x < 0x8000_0000,
    ensures
        as_signed(to_word(x), Size::Int) == x,
{
}

/// Quotient times divisor plus remainder gives the dividend: exactly for unsigned
/// carriers, and for signed ones unless the quotient does not fit (the least number
/// divided by -1); modulo 2^32 in every case.
pub proof fn lemma_div_rem_pairing(a: u32, b: u32)
    requires
        b != 0,
    ensures
        ({
            let (q, r) = spec_div(a, b, false);
            q * b + r == a && r < b
        }),
        ({
            let (q, r) = spec_div(a, b, true);
            let x = as_signed(a, Size::Int);
            let y = as_signed(b, Size::Int);
            &&& !(x == -0x8000_0000 && y == -1) ==> as_signed(q, Size::Int) * y + as_signed(
                r,
                Size::Int,
            ) == x
            &&& (q * b + r) % 0x1_0000_0000 == a
        }),
{
    lemma_fundamental_div_mod(a as int, b as int);
    assert((a / b) * b + a % b == a) by (nonlinear_arith)
        requires
            a == b * (a / b) + a % b,
    ;
    let x = as_signed(a, Size::Int);
    let y = as_signed(b, Size::Int);
    let ax = abs(x);
    let ay = abs(y);
    lemma_fundamental_div_mod(ax, ay);
    let qq = ax / ay;
    let rr = ax % ay;
    assert(ax == ay * qq + rr);
    assert(0 <= rr < ay);
    assert(trunc_div(x, y) * y + trunc_rem(x, y) == x) by (nonlinear_arith)
        requires
            ax == ay * qq + rr,
            ax == abs(x),
            ay == abs(y),
            trunc_div(x, y) == (if (x < 0) == (y < 0) {
                qq
            } else {
                -qq
            }),
            trunc_rem(x, y) == (if x < 0 {
                -rr
            } else {
                rr
            }),
    ;
    assert(0 <= qq <= ax) by (nonlinear_arith)
        requires
            ax == ay * qq + rr,
            ay >= 1,
            0 <= rr < ay,
            ax >= 0,
    ;
    if !(x == -0x8000_0000 && y == -1) {
        assert(-0x8000_0000 <= trunc_div(x, y) < 0x8000_0000) by (nonlinear_arith)
            requires
                0 <= qq <= ax,
                ax <= 0x8000_0000,
                ax == ay * qq + rr,
                0 <= rr,
                ay >= 1,
                !(x == -0x8000_0000 && y == -1),
                x == -0x8000_0000 ==> ax == 0x8000_0000,
                x != -0x8000_0000 ==> ax < 0x8000_0000,
                ay == 1 ==> (y == 1 || y == -1),
                trunc_div(x, y) == (if (x < 0) == (y < 0) {
                    qq
                } else {
                    -qq
                }),
        ;
        lemma_word_of_small(trunc_div(x, y));
        lemma_word_of_small(trunc_rem(x, y));
    }
    let q = to_word(trunc_div(x, y));
    let r = to_word(trunc_rem(x, y));
    lemma_low(a, Size::Int);
    lemma_low(b, Size::Int);
    lemma_fundamental_div_mod(trunc_div(x, y), 0x1_0000_0000);
    lemma_fundamental_div_mod(trunc_rem(x, y), 0x1_0000_0000);
    assert((q * b + r) % 0x1_0000_0000 == a) by (nonlinear_arith)
        requires
            trunc_div(x, y) * y + trunc_rem(x, y) == x,
            q as int == trunc_div(x, y) - 0x1_0000_0000 * (trunc_div(x, y) / 0x1_0000_0000),
            r as int == trunc_rem(x, y) - 0x1_0000_0000 * (trunc_rem(x, y) / 0x1_0000_0000),
            b as int == y || b as int == y + 0x1_0000_0000,
            a as int == x || a as int == x + 0x1_0000_0000,
            0 <= a < 0x1_0000_0000,
    ;
}

/// A comparison sets `r` to 1, 0 or -1 (as 32 bits) after the sign of `lhs - rhs`: at the
/// width of `lhs` read as signed numbers, or as unsigned 32-bit numbers.
pub proof fn lemma_compare_signum(m: Machine, a: Value, b: Value, len: u32, f: FloatResult)
    ensures
        spec_execute(m, Instruction::CompareSigned(a, b), len, f) matches Ok((m2, _)) && ({
            let d = as_signed(a.val, a.size) - as_signed(b.val, a.size);
            &&& m2.cpu.r == 0 || m2.cpu.r == 1 || m2.cpu.r == 0xffff_ffff
            &&& m2.cpu.r == 1 <==> d > 0
            &&& m2.cpu.r == 0 <==> d == 0
            &&& m2.cpu.r == 0xffff_ffff <==> d < 0
        }),
        spec_execute(m, Instruction::CompareUnsigned(a, b), len, f) matches Ok((m2, _)) && ({
            &&& m2.cpu.r == 0 || m2.cpu.r == 1 || m2.cpu.r == 0xffff_ffff
            &&& m2.cpu.r == 1 <==> a.val > b.val
            &&& m2.cpu.r == 0 <==> a.val == b.val
            &&& m2.cpu.r == 0xffff_ffff <==> a.val < b.val
        }),
{
}

} // verus!
