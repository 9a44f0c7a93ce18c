//! Seeded xorshift generator shared by every validator.
use vstd::prelude::*;

verus! {

/// Seed used in place of zero, which would keep an xorshift state at zero forever.
pub const DEFAULT_SEED: u64 = 0x1234_5678_9abc_def0;

/// Multiplier that scrambles each xorshift state into an output.
pub const SCRAMBLE: u64 = 0x2545_f491_4f6c_dd1d;

/// The state that a seed starts the generator in.
pub open spec fn seed_state(seed: u64) -> u64 {
    if seed == 0 {
        DEFAULT_SEED
    } else {
        seed
    }
}

/// One xorshift step: shifts of 12 right, 25 left and 27 right.
pub open spec fn xorshift(x: u64) -> u64 {
    let a = x ^ (x >> 12u64);
    let b = a ^ (a << 25u64);
    b ^ (b >> 27u64)
}

/// What a draw returns for the state after the step.
pub open spec fn scramble(x: u64) -> u64 {
    x.wrapping_mul(SCRAMBLE)
}

pub struct RandGenerator {
    state: u64,
}

impl RandGenerator {
    pub closed spec fn state(&self) -> u64 {
        self.state
    }

    pub fn new(seed: u64) -> (r: Self)
        ensures
            r.state() == seed_state(seed),
    {
        let seed = if seed == 0 {
            DEFAULT_SEED
        } else {
            seed
        };
        Self { state: seed }
    }

    pub fn next_u64(&mut self) -> (r: u64)
        ensures
            final(self).state() == xorshift(old(self).state()),
            r == scramble(final(self).state()),
    {
        let mut x = self.state;
        x = x ^ (x >> 12u64);
        x = x ^ (x << 25u64);
        x = x ^ (x >> 27u64);
        self.state = x;
        x.wrapping_mul(SCRAMBLE)
    }
}

} // verus!
