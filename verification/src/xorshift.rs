//! The xorshift128+ step on a two-word state.

use vstd::prelude::*;

verus! {

/// The two words of generator state.
///
/// A generator whose `state0` is zero counts as unseeded.
#[derive(Clone, Copy, Debug, PartialEq, Eq)]
pub struct Generator {
    pub state0: u64,
    pub state1: u64,
}

/// The word that replaces `state1` in one step: `s1` is the old `state0`,
/// `s0` the old `state1`.
pub open spec fn mix(s1: u64, s0: u64) -> u64 {
    let a: u64 = s1 ^ (s1 << 23);
    let b: u64 = a ^ (a >> 17);
    let c: u64 = b ^ s0;
    c ^ (s0 >> 26)
}

/// The state that follows `g`: the words rotate, and the second is mixed.
pub open spec fn next_state(g: Generator) -> Generator {
    Generator { state0: g.state1, state1: mix(g.state0, g.state1) }
}

/// The word that a step from `g` gives out: the sum of the two words of the
/// state that follows, modulo 2^64.
pub open spec fn output(g: Generator) -> u64 {
    ((g.state1 + mix(g.state0, g.state1)) % 0x1_0000_0000_0000_0000) as u64
}

/// Only the all-zero state steps to the all-zero state: a generator that
/// holds a set bit never falls into the fixed point that gives out zeros.
pub proof fn lemma_only_zero_steps_to_zero(g: Generator)
    requires
        g.state0 != 0 || g.state1 != 0,
    ensures
        next_state(g).state0 != 0 || next_state(g).state1 != 0,
{
    let s1: u64 = g.state0;
    assert(s1 != 0 ==> mix(s1, 0) != 0) by (bit_vector);
}

impl Generator {
    /// A generator with both words zero: unseeded.
    pub fn new() -> (g: Self)
        ensures
            g.state0 == 0,
            g.state1 == 0,
    {
        Generator { state0: 0, state1: 0 }
    }

    /// One xorshift128+ step, whatever the state holds.
    pub fn step(&mut self) -> (raw: u64)
        ensures
            *final(self) == next_state(*old(self)),
            raw == output(*old(self)),
    {
        let mut s1: u64 = self.state0;
        let s0: u64 = self.state1;
        self.state0 = s0;
        s1 ^= s1 << 23;
        s1 ^= s1 >> 17;
        s1 ^= s0;
        s1 ^= s0 >> 26;
        self.state1 = s1;
        s0.wrapping_add(s1)
    }
}

} // verus!
