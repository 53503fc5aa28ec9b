use vstd::prelude::*;

verus! {

pub const MULTIPLIER: u32 = 214013;

pub const INCREMENT: u32 = 2541011;

/// Largest sample: samples are 15 bits wide.
pub const RANGE: u32 = 0x7fff;

const SEED: u32 = 0x12345678;

/// State after one step of the linear congruential generator: `214013 * v + 2541011`,
/// wrapping at 32 bits.
pub open spec fn next_state(v: u32) -> u32 {
    MULTIPLIER.wrapping_mul(v).wrapping_add(INCREMENT)
}

/// The sample drawn with state `v`: bits 16 to 30.
pub open spec fn sample_of(v: u32) -> u32 {
    v / 0x10000 % 0x8000
}

/// A linear congruential pseudo-random number generator.
#[derive(Clone, Copy, Debug)]
pub struct Rand {
    val: u32,
}

impl View for Rand {
    type V = u32;

    closed spec fn view(&self) -> u32 {
        self.val
    }
}

impl Rand {
    pub fn new() -> (r: Rand)
        ensures
            r@ == 0x12345678,
    {
        Rand { val: SEED }
    }

    /// Steps the state and draws a 15-bit sample from it.
    pub fn next(&mut self) -> (r: u32)
        ensures
            final(self)@ == next_state(old(self)@),
            r == sample_of(final(self)@),
            r <= RANGE,
    {
        self.val = MULTIPLIER.wrapping_mul(self.val).wrapping_add(INCREMENT);
        self.val / 0x10000 % 0x8000
    }

    /// The sample that `next` would draw, without stepping.
    pub fn peek(&self) -> (r: u32)
        ensures
            r == sample_of(next_state(self@)),
    {
        MULTIPLIER.wrapping_mul(self.val).wrapping_add(INCREMENT) / 0x10000 % 0x8000
    }

    pub fn set_seed(&mut self, seed: u32)
        ensures
            final(self)@ == seed,
    {
        self.val = seed;
    }
}

} // verus!
