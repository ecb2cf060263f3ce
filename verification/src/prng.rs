//! A small deterministic pseudo-random generator.
//!
//! Stepping the generator is a pure function of its state, so every draw is
//! pinned exactly by the contracts: rendering with equal seeds gives equal
//! images. Fresh seeds come from machine entropy, of which nothing is
//! promised.

use vstd::prelude::*;

verus! {

/// Pseudo-random generator state (a splitmix-style stream).
#[derive(Clone, Copy, PartialEq, Eq, Structural, Debug)]
pub struct Prng {
    pub state: u64,
}

/// The generator state after one step.
pub open spec fn prng_step_spec(s: u64) -> u64 {
    vstd::wrapping::u64_specs::wrapping_add(s, 0x9E3779B97F4A7C15)
}

/// The value put out for a given stepped state.
pub open spec fn prng_out_spec(s: u64) -> u64 {
    let z1 = vstd::wrapping::u64_specs::wrapping_mul(s ^ (s >> 30), 0xBF58476D1CE4E5B9);
    let z2 = vstd::wrapping::u64_specs::wrapping_mul(z1 ^ (z1 >> 27), 0x94D049BB133111EB);
    z2 ^ (z2 >> 31)
}

/// The fixed-point fraction in `[0, 1)` carved out of a raw draw: its top
/// sixteen bits, one per fractional bit of the fixed-point format.
pub open spec fn fraction_spec(v: u64) -> i64 {
    (v >> 48) as i64
}

/// The state after one step together with the fraction drawn by that step.
pub open spec fn draw_spec(s: u64) -> (u64, i64) {
    (prng_step_spec(s), fraction_spec(prng_out_spec(prng_step_spec(s))))
}

impl Prng {
    /// A generator starting from a caller-chosen seed.
    pub fn new(seed: u64) -> (r: Prng)
        ensures
            r.state == seed,
    {
        Prng { state: seed }
    }

    /// A generator seeded from machine entropy, for callers that do not
    /// carry their own seed.
    pub fn from_entropy() -> Prng {
        Prng { state: entropy_seed() }
    }

    /// Draws the next raw value and advances the state.
    pub fn next_u64(&mut self) -> (r: u64)
        ensures
            final(self).state == prng_step_spec(old(self).state),
            r == prng_out_spec(final(self).state),
    {
        self.state = self.state.wrapping_add(0x9E3779B97F4A7C15);
        let z0: u64 = self.state;
        let z1: u64 = (z0 ^ (z0 >> 30)).wrapping_mul(0xBF58476D1CE4E5B9);
        let z2: u64 = (z1 ^ (z1 >> 27)).wrapping_mul(0x94D049BB133111EB);
        z2 ^ (z2 >> 31)
    }

    /// Draws the next fixed-point fraction in `[0, 1)`.
    pub fn next_fraction(&mut self) -> (r: i64)
        ensures
            (final(self).state, r) == draw_spec(old(self).state),
            0 <= r < crate::fixed::SCALE,
    {
        let v: u64 = self.next_u64();
        let f: u64 = v >> 48;
        proof {
            assert(v >> 48 < 0x10000) by (bit_vector);
        }
        f as i64
    }
}

/// Relies on rand::random: a fresh machine-entropy value; nothing is
/// promised of it.
#[verifier::external_body]
fn entropy_seed() -> u64 {
    rand::random::<u64>()
}

} // verus!
