//! Xoroshiro with two 32-bit state words.

use vstd::prelude::*;
use crate::scramble::{rotl32, spec_rotl32, wmul32};
use crate::splitmix::{expand_u32, lemma_seed0_first_output, spec_expanded32};

verus! {

/// The first state word after one advance with constants `(a, b)`.
pub open spec fn spec_xoro32_next_s0(s0: u32, s1: u32, a: u32, b: u32) -> u32 {
    let st = s1 ^ s0;
    spec_rotl32(s0, a) ^ st ^ (st << b)
}

/// The second state word after one advance with rotation `c`.
pub open spec fn spec_xoro32_next_s1(s0: u32, s1: u32, c: u32) -> u32 {
    spec_rotl32(s1 ^ s0, c)
}

/// The plain two-word 32-bit xoroshiro: the output is the first state word.
#[derive(Debug, PartialEq, Eq, Structural)]
pub struct Xoroshiro64 {
    pub s0: u32,
    pub s1: u32,
}

impl Xoroshiro64 {
    /// Starts from an explicit state pair; the all-zero pair is a fixed
    /// point of the advance, so it is repaired to the seed-zero expansion.
    pub fn new(s0: u32, s1: u32) -> (r: Self)
        ensures
            (s0 != 0 || s1 != 0) ==> r.s0 == s0 && r.s1 == s1,
            (s0 == 0 && s1 == 0) ==> r.s0 == spec_expanded32(0, 0) && r.s1 == spec_expanded32(
                0,
                1,
            ),
            r.s0 != 0 || r.s1 != 0,
    {
        if s0 != 0 || s1 != 0 {
            Xoroshiro64 { s0, s1 }
        } else {
            proof {
                lemma_seed0_first_output();
            }
            let w = expand_u32::<2>(0);
            Xoroshiro64 { s0: w[0], s1: w[1] }
        }
    }

    /// Expands one seed word into the state pair.
    pub fn with(seed: u64) -> (r: Self)
        ensures
            (spec_expanded32(seed, 0) != 0 || spec_expanded32(seed, 1) != 0) ==> r.s0
                == spec_expanded32(seed, 0) && r.s1 == spec_expanded32(seed, 1),
            (spec_expanded32(seed, 0) == 0 && spec_expanded32(seed, 1) == 0) ==> r.s0
                == spec_expanded32(0, 0) && r.s1 == spec_expanded32(0, 1),
            r.s0 != 0 || r.s1 != 0,
    {
        let w = expand_u32::<2>(seed);
        Self::new(w[0], w[1])
    }

    /// The first state word, after which the state advances.
    pub fn random_u32(&mut self) -> (r: u32)
        ensures
            r == old(self).s0,
            final(self).s0 == spec_xoro32_next_s0(old(self).s0, old(self).s1, 26, 9),
            final(self).s1 == spec_xoro32_next_s1(old(self).s0, old(self).s1, 13),
    {
        let result = self.s0;
        let st = self.s1 ^ self.s0;
        self.s0 = rotl32(self.s0, 26) ^ st ^ (st << 9);
        self.s1 = rotl32(st, 13);
        result
    }
}

/// The two-word 32-bit xoroshiro with the multiplicative output scrambler.
#[derive(Debug, PartialEq, Eq, Structural)]
pub struct Xoroshiro64star {
    pub s0: u32,
    pub s1: u32,
}

impl Xoroshiro64star {
    /// Starts from an explicit state pair; the all-zero pair is repaired to
    /// the seed-zero expansion.
    pub fn new(s0: u32, s1: u32) -> (r: Self)
        ensures
            (s0 != 0 || s1 != 0) ==> r.s0 == s0 && r.s1 == s1,
            (s0 == 0 && s1 == 0) ==> r.s0 == spec_expanded32(0, 0) && r.s1 == spec_expanded32(
                0,
                1,
            ),
            r.s0 != 0 || r.s1 != 0,
    {
        if s0 != 0 || s1 != 0 {
            Xoroshiro64star { s0, s1 }
        } else {
            proof {
                lemma_seed0_first_output();
            }
            let w = expand_u32::<2>(0);
            Xoroshiro64star { s0: w[0], s1: w[1] }
        }
    }

    /// Expands one seed word into the state pair.
    pub fn with(seed: u64) -> (r: Self)
        ensures
            (spec_expanded32(seed, 0) != 0 || spec_expanded32(seed, 1) != 0) ==> r.s0
                == spec_expanded32(seed, 0) && r.s1 == spec_expanded32(seed, 1),
            (spec_expanded32(seed, 0) == 0 && spec_expanded32(seed, 1) == 0) ==> r.s0
                == spec_expanded32(0, 0) && r.s1 == spec_expanded32(0, 1),
            r.s0 != 0 || r.s1 != 0,
    {
        let w = expand_u32::<2>(seed);
        Self::new(w[0], w[1])
    }

    /// The first state word scaled by the odd constant, after which the
    /// state advances.
    pub fn random_u32(&mut self) -> (r: u32)
        ensures
            r == wmul32(old(self).s0, 0x9e3779bb),
            final(self).s0 == spec_xoro32_next_s0(old(self).s0, old(self).s1, 26, 9),
            final(self).s1 == spec_xoro32_next_s1(old(self).s0, old(self).s1, 13),
    {
        let result = self.s0.wrapping_mul(0x9e3779bb);
        let st = self.s1 ^ self.s0;
        self.s0 = rotl32(self.s0, 26) ^ st ^ (st << 9);
        self.s1 = rotl32(st, 13);
        result
    }
}

/// The two-word 32-bit xoroshiro with the multiply-rotate-multiply output
/// scrambler.
#[derive(Debug, PartialEq, Eq, Structural)]
pub struct Xoroshiro64starstar {
    pub s0: u32,
    pub s1: u32,
}

impl Xoroshiro64starstar {
    /// Starts from an explicit state pair; the all-zero pair is repaired to
    /// the seed-zero expansion.
    pub fn new(s0: u32, s1: u32) -> (r: Self)
        ensures
            (s0 != 0 || s1 != 0) ==> r.s0 == s0 && r.s1 == s1,
            (s0 == 0 && s1 == 0) ==> r.s0 == spec_expanded32(0, 0) && r.s1 == spec_expanded32(
                0,
                1,
            ),
            r.s0 != 0 || r.s1 != 0,
    {
        if s0 != 0 || s1 != 0 {
            Xoroshiro64starstar { s0, s1 }
        } else {
            proof {
                lemma_seed0_first_output();
            }
            let w = expand_u32::<2>(0);
            Xoroshiro64starstar { s0: w[0], s1: w[1] }
        }
    }

    /// Expands one seed word into the state pair.
    pub fn with(seed: u64) -> (r: Self)
        ensures
            (spec_expanded32(seed, 0) != 0 || spec_expanded32(seed, 1) != 0) ==> r.s0
                == spec_expanded32(seed, 0) && r.s1 == spec_expanded32(seed, 1),
            (spec_expanded32(seed, 0) == 0 && spec_expanded32(seed, 1) == 0) ==> r.s0
                == spec_expanded32(0, 0) && r.s1 == spec_expanded32(0, 1),
            r.s0 != 0 || r.s1 != 0,
    {
        let w = expand_u32::<2>(seed);
        Self::new(w[0], w[1])
    }

    /// The scrambled first state word, after which the state advances.
    pub fn random_u32(&mut self) -> (r: u32)
        ensures
            r == wmul32(spec_rotl32(wmul32(old(self).s0, 0x9e3779bb), 5), 5),
            final(self).s0 == spec_xoro32_next_s0(old(self).s0, old(self).s1, 26, 9),
            final(self).s1 == spec_xoro32_next_s1(old(self).s0, old(self).s1, 13),
    {
        let result = rotl32(self.s0.wrapping_mul(0x9e3779bb), 5).wrapping_mul(5);
        let st = self.s1 ^ self.s0;
        self.s0 = rotl32(self.s0, 26) ^ st ^ (st << 9);
        self.s1 = rotl32(st, 13);
        result
    }
}

} // verus!
