//! What the arithmetic and logic instructions compute on 32-bit carriers, and the verified
//! functions that compute it.
use crate::parameter::{low, sign_extend, Size};
use vstd::arithmetic::div_mod::{lemma_fundamental_div_mod, lemma_hoist_over_denominator};
use vstd::prelude::*;

verus! {

/// Bits of the binary32 number -1.0.
pub const FLOAT_MINUS_ONE: u32 = 0xbf80_0000;

/// Bits of the binary32 number 1.0, also the step of the float increment and decrement.
pub const FLOAT_PLUS_ONE: u32 = 0x3f80_0000;

/// `v` read as a two's-complement number of width `s`.
pub open spec fn as_signed(v: u32, s: Size) -> int {
    let x = low(v, s) as int;
    if x >= s.modulus() / 2 {
        x - s.modulus()
    } else {
        x
    }
}

/// The 32-bit two's-complement bits of `x`.
pub open spec fn to_word(x: int) -> u32 {
    (x % 0x1_0000_0000) as u32
}

/// -1, 0 or 1 after the sign of `x`, as 32-bit bits.
pub open spec fn signum_bits(x: int) -> u32 {
    if x > 0 {
        1
    } else if x < 0 {
        0xffff_ffff
    } else {
        0
    }
}

/// The status word of an addition or subtraction: bit 0 for an unsigned overflow, bit 1
/// for a signed one.
pub open spec fn overflow_flags(unsigned_overflow: bool, signed_overflow: bool) -> u32 {
    ((if unsigned_overflow {
        1int
    } else {
        0int
    }) + (if signed_overflow {
        2int
    } else {
        0int
    })) as u32
}

/// Whether `x` lies outside the signed range of width `s`.
pub open spec fn signed_overflows(x: int, s: Size) -> bool {
    x < -(s.modulus() / 2) || x >= s.modulus() / 2
}

/// Sum at width `s` and its overflow flags.
pub open spec fn spec_add(a: u32, b: u32, s: Size) -> (u32, u32) {
    let sum = low(a, s) + low(b, s);
    (
        (sum % s.modulus()) as u32,
        overflow_flags(sum >= s.modulus(), signed_overflows(as_signed(a, s) + as_signed(b, s), s)),
    )
}

/// Difference at width `s` and its overflow flags.
pub open spec fn spec_sub(a: u32, b: u32, s: Size) -> (u32, u32) {
    let diff = low(a, s) - low(b, s);
    (
        (diff % s.modulus()) as u32,
        overflow_flags(diff < 0, signed_overflows(as_signed(a, s) - as_signed(b, s), s)),
    )
}

/// Low and high words of the 64-bit product of two 32-bit carriers.
pub open spec fn spec_mul(a: u32, b: u32, signed: bool) -> (u32, u32) {
    let p = if signed {
        as_signed(a, Size::Int) * as_signed(b, Size::Int)
    } else {
        a * b
    };
    (to_word(p), to_word(p / 0x1_0000_0000))
}

pub open spec fn abs(x: int) -> int {
    if x < 0 {
        -x
    } else {
        x
    }
}

/// Quotient rounded toward zero.
pub open spec fn trunc_div(x: int, y: int) -> int {
    if (x < 0) == (y < 0) {
        abs(x) / abs(y)
    } else {
        -(abs(x) / abs(y))
    }
}

/// Remainder of the division rounded toward zero; it has the sign of `x`.
pub open spec fn trunc_rem(x: int, y: int) -> int {
    if x < 0 {
        -(abs(x) % abs(y))
    } else {
        abs(x) % abs(y)
    }
}

/// Quotient and remainder of two 32-bit carriers; a signed quotient that does not fit
/// (the least number divided by -1) wraps.
pub open spec fn spec_div(a: u32, b: u32, signed: bool) -> (u32, u32) {
    if signed {
        let x = as_signed(a, Size::Int);
        let y = as_signed(b, Size::Int);
        (to_word(trunc_div(x, y)), to_word(trunc_rem(x, y)))
    } else {
        (a / b, a % b)
    }
}

pub open spec fn float_is_nan(x: u32) -> bool {
    x % 0x8000_0000 > 0x7f80_0000
}

pub open spec fn float_is_zero(x: u32) -> bool {
    x % 0x8000_0000 == 0
}

/// The binary32 number of bits `x` is below zero.
pub open spec fn float_is_negative(x: u32) -> bool {
    x >= 0x8000_0000 && !float_is_nan(x) && !float_is_zero(x)
}

/// An integer that orders binary32 numbers other than NaN as their values do.
pub open spec fn float_key(x: u32) -> int {
    if x >= 0x8000_0000 {
        -(x % 0x8000_0000)
    } else {
        x as int
    }
}

/// Binary32 `a > b`: false where either is NaN.
pub open spec fn float_gt(a: u32, b: u32) -> bool {
    !float_is_nan(a) && !float_is_nan(b) && float_key(a) > float_key(b)
}

/// Whether `a` is greater than `b` when the carriers are read as signed numbers (`signed`),
/// as unsigned numbers, or as binary32 numbers (`float`).
pub open spec fn greater(a: u32, b: u32, signed: bool, float: bool) -> bool {
    if float {
        float_gt(a, b)
    } else if signed {
        as_signed(a, Size::Int) > as_signed(b, Size::Int)
    } else {
        a > b
    }
}

/// The larger and the smaller of two carriers; the second where they are not ordered.
pub open spec fn spec_max_min(a: u32, b: u32, signed: bool, float: bool) -> (u32, u32) {
    if greater(a, b, signed, float) {
        (a, b)
    } else {
        (b, a)
    }
}

/// Absolute value and sign (-1, 0 or 1) of a signed 32-bit carrier, or of a binary32 one
/// (`float`), the sign then being a binary32 number too. A zero is returned unchanged, as is
/// a NaN, whose sign is given as 1.
pub open spec fn spec_abs_sign(a: u32, float: bool) -> (u32, u32) {
    if float {
        if float_is_zero(a) {
            (a, 0)
        } else if float_is_negative(a) {
            ((a - 0x8000_0000) as u32, FLOAT_MINUS_ONE)
        } else {
            (a, FLOAT_PLUS_ONE)
        }
    } else {
        let x = as_signed(a, Size::Int);
        if x == 0 {
            (a, 0)
        } else if x < 0 {
            (to_word(-x), 0xffff_ffff)
        } else {
            (a, 1)
        }
    }
}

/// Mask of the shift amounts that make sense at width `s`.
pub open spec fn shift_mask(s: Size) -> u32 {
    match s {
        Size::Byte => 7,
        Size::Short => 15,
        Size::Int => 31,
    }
}

pub open spec fn bit_count(s: Size) -> u32 {
    match s {
        Size::Byte => 8,
        Size::Short => 16,
        Size::Int => 32,
    }
}

/// The low `k` bits set.
pub open spec fn low_mask(k: u32) -> u32 {
    ((1u32 << k) - 1) as u32
}

/// Arithmetic shift right: the vacated bits take the sign bit.
pub open spec fn sar_bits(x: u32, k: u32) -> u32 {
    if x < 0x8000_0000 {
        x >> k
    } else {
        !((!x) >> k)
    }
}

/// Logical shift right at width `s` and the bits shifted out.
pub open spec fn spec_slr(a: u32, b: u32, s: Size) -> (u32, u32) {
    let k = b & shift_mask(s);
    (a >> k, a & low_mask(k))
}

/// Arithmetic shift right of the value of width `s` and the bits shifted out.
pub open spec fn spec_sar(a: u32, b: u32, s: Size) -> (u32, u32) {
    let k = b & shift_mask(s);
    (sar_bits(sign_extend(a, s), k), a & low_mask(k))
}

/// Logical shift left and the bits shifted out at width `s`.
pub open spec fn spec_sll(a: u32, b: u32, s: Size) -> (u32, u32) {
    let k = b & shift_mask(s);
    (
        a << k,
        if k == 0 {
            0
        } else {
            a >> (bit_count(s) - k) as u32
        },
    )
}

/// Rotation right of the value of width `s` by `b` places.
pub open spec fn spec_ror(a: u32, b: u32, s: Size) -> u32 {
    let x = low(a, s);
    let k = b % bit_count(s);
    if k == 0 {
        x
    } else {
        (((x >> k) | (x << (bit_count(s) - k) as u32)) as int % s.modulus()) as u32
    }
}

/// Rotation left of the value of width `s` by `b` places.
pub open spec fn spec_rol(a: u32, b: u32, s: Size) -> u32 {
    let x = low(a, s);
    let k = b % bit_count(s);
    if k == 0 {
        x
    } else {
        (((x << k) | (x >> (bit_count(s) - k) as u32)) as int % s.modulus()) as u32
    }
}

/// Index of the bit that a bit instruction addresses at width `s`.
pub open spec fn bit_index(b: u32, s: Size) -> u32 {
    b & shift_mask(s)
}

/// Bit `i` of `a`, as 0 or 1.
pub open spec fn bit_of(a: u32, i: u32) -> u32 {
    if a & (1u32 << i) != 0 {
        1
    } else {
        0
    }
}

proof fn lemma_masks(b: u32)
    by (bit_vector)
    ensures
        b & 7 <= 7,
        b & 15 <= 15,
        b & 31 <= 31,
        1u32 << (b & 7) >= 1,
        1u32 << (b & 15) >= 1,
        1u32 << (b & 31) >= 1,
{
}

pub fn shift_mask_of(s: Size) -> (m: u32)
    ensures
        m == shift_mask(s),
        m < bit_count(s),
{
    match s {
        Size::Byte => 7,
        Size::Short => 15,
        Size::Int => 31,
    }
}

pub fn bit_count_of(s: Size) -> (n: u32)
    ensures
        n == bit_count(s),
{
    match s {
        Size::Byte => 8,
        Size::Short => 16,
        Size::Int => 32,
    }
}

fn masked_shift(b: u32, s: Size) -> (k: u32)
    ensures
        k == b & shift_mask(s),
        k < bit_count(s),
        1u32 << k >= 1,
{
    let k = b & shift_mask_of(s);
    proof {
        lemma_masks(b);
    }
    k
}

fn low_of(v: u32, s: Size) -> (r: u32)
    ensures
        r == low(v, s),
{
    match s {
        Size::Byte => v % 0x100,
        Size::Short => v % 0x10000,
        Size::Int => v,
    }
}

/// `v` read as a two's-complement number of width `s`.
pub fn signed_of(v: u32, s: Size) -> (r: i64)
    ensures
        r == as_signed(v, s),
{
    let x = low_of(v, s) as i64;
    let m: i64 = match s {
        Size::Byte => 0x100,
        Size::Short => 0x10000,
        Size::Int => 0x1_0000_0000,
    };
    if x >= m / 2 {
        x - m
    } else {
        x
    }
}

fn modulus_of(s: Size) -> (m: u64)
    ensures
        m == s.modulus(),
{
    match s {
        Size::Byte => 0x100,
        Size::Short => 0x10000,
        Size::Int => 0x1_0000_0000,
    }
}

/// -1, 0 or 1 after the sign of `x`.
pub fn signum_of(x: i64) -> (r: u32)
    ensures
        r == signum_bits(x as int),
{
    if x > 0 {
        1
    } else if x < 0 {
        0xffff_ffff
    } else {
        0
    }
}

fn flags_of(unsigned_overflow: bool, signed_overflow: bool) -> (r: u32)
    ensures
        r == overflow_flags(unsigned_overflow, signed_overflow),
{
    (if unsigned_overflow {
        1u32
    } else {
        0u32
    }) + (if signed_overflow {
        2u32
    } else {
        0u32
    })
}

pub fn add_at(a: u32, b: u32, s: Size) -> (r: (u32, u32))
    ensures
        r == spec_add(a, b, s),
{
    let m = modulus_of(s);
    let sum = low_of(a, s) as u64 + low_of(b, s) as u64;
    let ssum = signed_of(a, s) + signed_of(b, s);
    let half = (m / 2) as i64;
    ((sum % m) as u32, flags_of(sum >= m, ssum < -half || ssum >= half))
}

pub fn sub_at(a: u32, b: u32, s: Size) -> (r: (u32, u32))
    ensures
        r == spec_sub(a, b, s),
{
    let m = modulus_of(s);
    let x = low_of(a, s) as u64;
    let y = low_of(b, s) as u64;
    let diff = if x >= y {
        x - y
    } else {
        x + m - y
    };
    let sdiff = signed_of(a, s) - signed_of(b, s);
    let half = (m / 2) as i64;
    proof {
        if x < y {
            assert((x - y) % (m as int) == x + m - y) by {
                lemma_fundamental_div_mod(x - y, m as int);
            }
        }
    }
    (diff as u32, flags_of(x < y, sdiff < -half || sdiff >= half))
}

pub fn mul_words(a: u32, b: u32, signed: bool) -> (r: (u32, u32))
    ensures
        r == spec_mul(a, b, signed),
{
    if signed {
        let x = signed_of(a, Size::Int);
        let y = signed_of(b, Size::Int);
        assert(-0x4000_0000_0000_0000 <= x * y <= 0x4000_0000_0000_0000) by (nonlinear_arith)
            requires
                -0x8000_0000 <= x <= 0x7fff_ffff,
                -0x8000_0000 <= y <= 0x7fff_ffff,
        ;
        let p: i64 = x * y;
        // shifted into the non-negative range by a multiple of 2^32
        let q: u64 = (p as i128 + 0x4000_0000_0000_0000) as u64;
        let lo = (q % 0x1_0000_0000) as u32;
        let hi = ((q / 0x1_0000_0000 + 0x1_0000_0000 - 0x4000_0000) % 0x1_0000_0000) as u32;
        proof {
            let pi = p as int;
            lemma_hoist_over_denominator(pi, 0x4000_0000, 0x1_0000_0000);
            assert((pi + 0x4000_0000 * 0x1_0000_0000) % 0x1_0000_0000 == pi % 0x1_0000_0000)
                by (nonlinear_arith);
            assert((pi / 0x1_0000_0000 + 0x1_0000_0000) % 0x1_0000_0000 == (pi / 0x1_0000_0000)
                % 0x1_0000_0000) by (nonlinear_arith);
        }
        (lo, hi)
    } else {
        assert(a * b < 0x1_0000_0000 * 0x1_0000_0000) by (nonlinear_arith)
            requires
                a < 0x1_0000_0000,
                b < 0x1_0000_0000,
        ;
        let p: u64 = a as u64 * b as u64;
        ((p % 0x1_0000_0000) as u32, (p / 0x1_0000_0000) as u32)
    }
}

pub fn div_words(a: u32, b: u32, signed: bool) -> (r: (u32, u32))
    requires
        b != 0,
    ensures
        r == spec_div(a, b, signed),
{
    if signed {
        let x = signed_of(a, Size::Int);
        let y = signed_of(b, Size::Int);
        let ux: u32 = if x < 0 {
            (-x) as u32
        } else {
            x as u32
        };
        let uy: u32 = if y < 0 {
            (-y) as u32
        } else {
            y as u32
        };
        let q = ux / uy;
        let rem = ux % uy;
        let q_word = if (x < 0) == (y < 0) {
            q
        } else {
            0u32.wrapping_sub(q)
        };
        let rem_word = if x < 0 {
            0u32.wrapping_sub(rem)
        } else {
            rem
        };
        proof {
            assert(ux == abs(x as int) && uy == abs(y as int));
            if (x < 0) != (y < 0) && q > 0 {
                assert(to_word(-(q as int)) == 0x1_0000_0000 - q) by {
                    lemma_fundamental_div_mod(-(q as int), 0x1_0000_0000);
                }
            }
            if x < 0 && rem > 0 {
                assert(to_word(-(rem as int)) == 0x1_0000_0000 - rem) by {
                    lemma_fundamental_div_mod(-(rem as int), 0x1_0000_0000);
                }
            }
            if (x < 0) == (y < 0) {
                assert(q < 0x1_0000_0000);
            }
        }
        (q_word, rem_word)
    } else {
        (a / b, a % b)
    }
}

pub fn max_min_words(a: u32, b: u32, signed: bool, float: bool) -> (r: (u32, u32))
    ensures
        r == spec_max_min(a, b, signed, float),
{
    let greater = if float {
        float_gt_of(a, b)
    } else if signed {
        signed_of(a, Size::Int) > signed_of(b, Size::Int)
    } else {
        a > b
    };
    if greater {
        (a, b)
    } else {
        (b, a)
    }
}

fn float_key_of(x: u32) -> (k: i64)
    ensures
        k == float_key(x),
{
    if x >= 0x8000_0000 {
        -((x % 0x8000_0000) as i64)
    } else {
        x as i64
    }
}

pub fn float_gt_of(a: u32, b: u32) -> (r: bool)
    ensures
        r == float_gt(a, b),
{
    a % 0x8000_0000 <= 0x7f80_0000 && b % 0x8000_0000 <= 0x7f80_0000 && float_key_of(a)
        > float_key_of(b)
}

pub fn abs_sign_words(a: u32, float: bool) -> (r: (u32, u32))
    ensures
        r == spec_abs_sign(a, float),
{
    if float {
        let magnitude = a % 0x8000_0000;
        if magnitude == 0 {
            (a, 0)
        } else if a >= 0x8000_0000 && magnitude <= 0x7f80_0000 {
            (a - 0x8000_0000, FLOAT_MINUS_ONE)
        } else {
            (a, FLOAT_PLUS_ONE)
        }
    } else {
        let x = signed_of(a, Size::Int);
        if x == 0 {
            (a, 0)
        } else if x < 0 {
            let negated = (-x) as u64;
            proof {
                assert(to_word(-x) == negated);
            }
            ((negated % 0x1_0000_0000) as u32, 0xffff_ffff)
        } else {
            (a, 1)
        }
    }
}

pub fn slr_words(a: u32, b: u32, s: Size) -> (r: (u32, u32))
    ensures
        r == spec_slr(a, b, s),
{
    let k = masked_shift(b, s);
    (a >> k, a & ((1u32 << k) - 1))
}

pub fn sar_words(a: u32, b: u32, s: Size) -> (r: (u32, u32))
    ensures
        r == spec_sar(a, b, s),
{
    let k = masked_shift(b, s);
    let x = sign_extend_of(a, s);
    let shifted = if x < 0x8000_0000 {
        x >> k
    } else {
        !((!x) >> k)
    };
    (shifted, a & ((1u32 << k) - 1))
}

fn sign_extend_of(v: u32, s: Size) -> (r: u32)
    ensures
        r == sign_extend(v, s),
{
    match s {
        Size::Byte => {
            let x = v % 0x100;
            if x >= 0x80 {
                x + 0xffff_ff00
            } else {
                x
            }
        },
        Size::Short => {
            let x = v % 0x10000;
            if x >= 0x8000 {
                x + 0xffff_0000
            } else {
                x
            }
        },
        Size::Int => v,
    }
}

pub fn sll_words(a: u32, b: u32, s: Size) -> (r: (u32, u32))
    ensures
        r == spec_sll(a, b, s),
{
    let k = masked_shift(b, s);
    let out = if k == 0 {
        0
    } else {
        a >> (bit_count_of(s) - k)
    };
    (a << k, out)
}

pub fn ror_word(a: u32, b: u32, s: Size) -> (r: u32)
    ensures
        r == spec_ror(a, b, s),
{
    let n = bit_count_of(s);
    let x = low_of(a, s);
    let k = b % n;
    if k == 0 {
        x
    } else {
        (((x >> k) | (x << (n - k))) as u64 % modulus_of(s)) as u32
    }
}

pub fn rol_word(a: u32, b: u32, s: Size) -> (r: u32)
    ensures
        r == spec_rol(a, b, s),
{
    let n = bit_count_of(s);
    let x = low_of(a, s);
    let k = b % n;
    if k == 0 {
        x
    } else {
        (((x << k) | (x >> (n - k))) as u64 % modulus_of(s)) as u32
    }
}

/// The index that a bit instruction addresses, and the single-bit mask for it.
pub fn bit_mask(b: u32, s: Size) -> (r: (u32, u32))
    ensures
        r.0 == bit_index(b, s),
        r.1 == 1u32 << bit_index(b, s),
{
    let i = masked_shift(b, s);
    (i, 1u32 << i)
}

pub fn bit_of_word(a: u32, mask: u32) -> (r: u32)
    ensures
        r == (if a & mask != 0 {
            1u32
        } else {
            0u32
        }),
{
    if a & mask != 0 {
        1
    } else {
        0
    }
}

} // verus!
