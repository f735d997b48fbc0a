//! The seeded generator that makes every random decision of the network.

use vstd::prelude::*;

verus! {

/// Step of the generator's counter.
pub const GOLDEN_GAMMA: u64 = 0x9E37_79B9_7F4A_7C15;

/// A seeded pseudo random number generator.
///
/// The generator is a counter that moves by a fixed odd step; each output is
/// the counter after the step, scrambled by two multiply-xorshift rounds.
/// Equal states give equal outputs: a run is determined by its seed.
#[derive(Debug, Clone, Copy, PartialEq, Eq, Structural, Hash)]
pub struct GlobalRng {
    state: u64,
}

/// The scrambling of one counter value into one output word.
pub open spec fn scramble(z: u64) -> u64 {
    let a = (z ^ (z >> 30)).wrapping_mul(0xBF58_476D_1CE4_E5B9);
    let b = (a ^ (a >> 27)).wrapping_mul(0x94D0_49BB_1331_11EB);
    b ^ (b >> 31)
}

impl View for GlobalRng {
    type V = u64;

    /// The counter.
    closed spec fn view(&self) -> u64 {
        self.state
    }
}

impl GlobalRng {
    /// The counter after the next step.
    pub open spec fn next_state(state: u64) -> u64 {
        state.wrapping_add(GOLDEN_GAMMA)
    }

    /// The word that a generator in `state` hands out next.
    pub open spec fn next_word(state: u64) -> u64 {
        scramble(Self::next_state(state))
    }

    /// A generator that starts from `seed`.
    pub fn new_with_seed(seed: u64) -> (rng: GlobalRng)
        ensures
            rng@ == seed,
    {
        GlobalRng { state: seed }
    }

    /// Hands out the next word and moves the counter one step.
    pub fn next_u64(&mut self) -> (word: u64)
        ensures
            word == Self::next_word(old(self)@),
            final(self)@ == Self::next_state(old(self)@),
    {
        self.state = self.state.wrapping_add(GOLDEN_GAMMA);
        let z = self.state;
        let a = (z ^ (z >> 30)).wrapping_mul(0xBF58_476D_1CE4_E5B9);
        let b = (a ^ (a >> 27)).wrapping_mul(0x94D0_49BB_1331_11EB);
        b ^ (b >> 31)
    }
}

} // verus!
