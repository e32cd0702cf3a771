//! A small deterministic pseudo-random generator for sampling.
//!
//! Radiance estimation and camera jitter draw their randomness from this
//! generator.  Each parallel task owns one, seeded independently from the
//! task's sample index, so no generator is shared across workers and a
//! render with a fixed seed reproduces its accumulated colours bit for
//! bit.  The step is the splitmix construction: an additive counter whose
//! value is mixed by xor-shifts and two wrapping multiplications.

use crate::fx::{Float, SCALE};
use vstd::prelude::*;

verus! {

/// The additive constant of the splitmix step.
pub const RNG_GAMMA: u64 = 0x9E3779B97F4A7C15;

/// The first mixing multiplier.
pub const RNG_MIX1: u64 = 0xBF58476D1CE4E5B9;

/// The second mixing multiplier.
pub const RNG_MIX2: u64 = 0x94D049BB133111EB;

/// A deterministic sampling generator: the whole state is one counter.
#[derive(Clone, Copy, Debug, PartialEq, Eq, Structural)]
pub struct SampleRng {
    pub state: u64,
}

/// The state after one draw.
pub open spec fn spec_rng_state(s: u64) -> u64 {
    vstd::wrapping::u64_specs::wrapping_add(s, RNG_GAMMA)
}

/// The value of one draw: the advanced counter, mixed.
pub open spec fn spec_rng_output(s: u64) -> u64 {
    let z0 = spec_rng_state(s);
    let z1 = z0 ^ (z0 >> 30);
    let z2 = vstd::wrapping::u64_specs::wrapping_mul(z1, RNG_MIX1);
    let z3 = z2 ^ (z2 >> 27);
    let z4 = vstd::wrapping::u64_specs::wrapping_mul(z3, RNG_MIX2);
    z4 ^ (z4 >> 31)
}

/// The fixed-point value in `[0, 1)` of one draw.
pub open spec fn spec_rng_unit(s: u64) -> Float {
    (spec_rng_output(s) % (SCALE as u64)) as i64
}

impl SampleRng {
    /// A generator at the given seed.
    pub fn new(seed: u64) -> (r: SampleRng)
        ensures
            r.state == seed,
    {
        SampleRng { state: seed }
    }

    /// One raw 64-bit draw.
    pub fn next_u64(&mut self) -> (r: u64)
        ensures
            final(self).state == spec_rng_state(old(self).state),
            r == spec_rng_output(old(self).state),
    {
        self.state = self.state.wrapping_add(RNG_GAMMA);
        let z0 = self.state;
        let z1 = z0 ^ (z0 >> 30);
        let z2 = z1.wrapping_mul(RNG_MIX1);
        let z3 = z2 ^ (z2 >> 27);
        let z4 = z3.wrapping_mul(RNG_MIX2);
        z4 ^ (z4 >> 31)
    }

    /// One fixed-point draw in `[0, 1)`.
    pub fn next_unit(&mut self) -> (r: Float)
        ensures
            final(self).state == spec_rng_state(old(self).state),
            r == spec_rng_unit(old(self).state),
            0 <= r < SCALE,
    {
        let d = self.next_u64() % (SCALE as u64);
        d as i64
    }
}

} // verus!
