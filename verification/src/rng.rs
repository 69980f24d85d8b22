//! A small deterministic pseudo-random generator.
//!
//! The animation needs a stream of draws that is a pure function of its
//! seed: the static field is recomputed from the seed on every render and
//! must come out bit-identical each time.  A linear-congruential step on a
//! 64-bit state, with the upper 32 bits as output, gives exactly that and
//! verifies exactly: every draw is pinned by a spec function of the seed.
//!
//! Fresh entropy (for seeding) is the shell's concern, not this module's.

use vstd::prelude::*;

verus! {

/// Multiplier of the linear-congruential step (Knuth's MMIX constants).
pub const LCG_MUL: u64 = 6364136223846793005;

/// Increment of the linear-congruential step.
pub const LCG_INC: u64 = 1442695040888963407;

/// The generator state after one step: `state * LCG_MUL + LCG_INC`, mod `2^64`.
pub open spec fn next_state(s: u64) -> u64 {
    ((s as int * LCG_MUL as int + LCG_INC as int) % 0x1_0000_0000_0000_0000) as u64
}

/// The 32 bits a state yields: its upper half, where the generator mixes best.
pub open spec fn output_of(s: u64) -> u32 {
    (s >> 32) as u32
}

/// The state reached from `s` after `k` steps.
pub open spec fn state_after(s: u64, k: nat) -> u64
    decreases k,
{
    if k == 0 {
        s
    } else {
        next_state(state_after(s, (k - 1) as nat))
    }
}

/// A deterministic pseudo-random generator: 64 bits of state, advanced by a
/// linear-congruential step.  Reproducible from its seed on every machine.
#[derive(Clone, Copy, PartialEq, Eq, Structural, Debug)]
pub struct Rng64 {
    pub state: u64,
}

impl Rng64 {
    /// A generator whose stream is fully determined by `seed`.
    pub fn new(seed: u64) -> (r: Rng64)
        ensures
            r.state == seed,
    {
        Rng64 { state: seed }
    }

    /// Advance one step and return 32 fresh bits.
    pub fn next_u32(&mut self) -> (r: u32)
        ensures
            final(self).state == next_state(old(self).state),
            r == output_of(final(self).state),
    {
        proof {
            vstd::arithmetic::mul::lemma_mul_inequality(
                self.state as int,
                u64::MAX as int,
                LCG_MUL as int,
            );
        }
        let wide: u128 = (self.state as u128) * (LCG_MUL as u128) + (LCG_INC as u128);
        let ns: u64 = #[verifier::truncate] (wide as u64);
        assert(wide as int == old(self).state as int * LCG_MUL as int + LCG_INC as int);
        assert(ns as u128 == wide % 0x1_0000_0000_0000_0000u128) by (bit_vector)
            requires
                ns == #[verifier::truncate] (wide as u64),
        ;
        assert(ns as int == wide as int % 0x1_0000_0000_0000_0000);
        self.state = ns;
        assert(ns >> 32 < 0x1_0000_0000u64) by (bit_vector);
        (ns >> 32) as u32
    }

    /// Draw a value below `bound`.
    pub fn next_below(&mut self, bound: u32) -> (r: u32)
        requires
            bound >= 1,
        ensures
            final(self).state == next_state(old(self).state),
            r == output_of(final(self).state) % bound,
            r < bound,
    {
        let x: u32 = self.next_u32();
        x % bound
    }
}

/// The signed draw taken from state `s` for a half-width of `spread` ticks:
/// a value in `[-spread, spread)`.
pub open spec fn spread_draw(s: u64, spread: int) -> int {
    output_of(s) % ((2 * spread) as u32) - spread
}

impl Rng64 {
    /// Draw a signed fixed-point value in `[-spread, spread)`.
    pub fn next_spread(&mut self, spread: i64) -> (r: i64)
        requires
            1 <= spread <= 0x3FFF_FFFF,
        ensures
            final(self).state == next_state(old(self).state),
            r == spread_draw(final(self).state, spread as int),
            -spread <= r < spread,
    {
        let b: u32 = (2 * spread) as u32;
        let x: u32 = self.next_below(b);
        (x as i64) - spread
    }
}

} // verus!
