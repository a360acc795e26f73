//! A small deterministic pseudo-random number generator.
//!
//! Every random choice of the generators is drawn from this explicitly seeded
//! linear congruential generator, never from process-wide state, so that a
//! replayed seed reproduces a generation exactly.  The sequence of states and
//! outputs is pinned by spec functions: two generators seeded alike emit the
//! same draws.

use vstd::prelude::*;

verus! {

pub const LCG_MUL: u64 = 6364136223846793005;
pub const LCG_INC: u64 = 1442695040888963407;

/// Divisor extracting the top 31 bits of a state word.
pub const LCG_TOP: u64 = 0x2_0000_0000;

/// The successor of a generator state.
pub open spec fn lcg_next_spec(s: u64) -> u64 {
    s.wrapping_mul(LCG_MUL).wrapping_add(LCG_INC)
}

/// The state a generator seeded with `seed` holds after emitting `k` draws.
pub open spec fn lcg_state_spec(seed: u32, k: nat) -> u64
    decreases k,
{
    if k == 0 {
        lcg_next_spec(seed as u64)
    } else {
        lcg_next_spec(lcg_state_spec(seed, (k - 1) as nat))
    }
}

/// The `k`-th draw (counting from zero) of a generator seeded with `seed`.
pub open spec fn lcg_draw_spec(seed: u32, k: nat) -> u64 {
    lcg_state_spec(seed, k) / LCG_TOP
}

/// An explicitly seeded linear congruential generator.
#[derive(Debug, Clone, Copy)]
pub struct Lcg {
    pub state: u64,
}

impl Lcg {
    /// Seeds the generator; one scrambling step spreads small seeds out.
    pub fn new(seed: u32) -> (r: Self)
        ensures
            r.state == lcg_state_spec(seed, 0),
    {
        Lcg { state: (seed as u64).wrapping_mul(LCG_MUL).wrapping_add(LCG_INC) }
    }

    /// Emits the top 31 bits of the current state, then steps the state.
    pub fn next(&mut self) -> (r: u64)
        ensures
            r == old(self).state / LCG_TOP,
            r < 0x8000_0000,
            final(self).state == lcg_next_spec(old(self).state),
    {
        let r = self.state / LCG_TOP;
        self.state = self.state.wrapping_mul(LCG_MUL).wrapping_add(LCG_INC);
        r
    }

    /// A draw reduced below `bound`.
    pub fn next_below(&mut self, bound: u64) -> (r: u64)
        requires
            0 < bound,
        ensures
            r == (old(self).state / LCG_TOP) % bound,
            r < bound,
            final(self).state == lcg_next_spec(old(self).state),
    {
        let v = self.next();
        v % bound
    }
}

} // verus!
