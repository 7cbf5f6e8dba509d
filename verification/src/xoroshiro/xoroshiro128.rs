//! Xoroshiro with two 64-bit state words.

use vstd::prelude::*;
use crate::scramble::{rotl64, spec_rotl64, wadd64, wmul64};
use crate::splitmix::{expand_u64, lemma_seed0_first_output, spec_splitmix64_out};
use crate::util::spec_u64_high;

verus! {

/// The first state word after one advance with constants `(a, b)`.
pub open spec fn spec_xoro64_next_s0(s0: u64, s1: u64, a: u64, b: u64) -> u64 {
    let st = s1 ^ s0;
    spec_rotl64(s0, a) ^ st ^ (st << b)
}

/// The second state word after one advance with rotation `c`.
pub open spec fn spec_xoro64_next_s1(s0: u64, s1: u64, c: u64) -> u64 {
    spec_rotl64(s1 ^ s0, c)
}

/// The plain two-word 64-bit xoroshiro: the output is the first state word.
#[derive(Debug, PartialEq, Eq, Structural)]
pub struct Xoroshiro128 {
    pub s0: u64,
    pub s1: u64,
}

impl Xoroshiro128 {
    /// Starts from an explicit state pair; the all-zero pair is a fixed
    /// point of the advance, so it is repaired to the seed-zero expansion.
    pub fn new(s0: u64, s1: u64) -> (r: Self)
        ensures
            (s0 != 0 || s1 != 0) ==> r.s0 == s0 && r.s1 == s1,
            (s0 == 0 && s1 == 0) ==> r.s0 == spec_splitmix64_out(0, 0) && r.s1
                == spec_splitmix64_out(0, 1),
            r.s0 != 0 || r.s1 != 0,
    {
        if s0 != 0 || s1 != 0 {
            Xoroshiro128 { s0, s1 }
        } else {
            proof {
                lemma_seed0_first_output();
            }
            let w = expand_u64::<2>(0);
            Xoroshiro128 { s0: w[0], s1: w[1] }
        }
    }

    /// Expands one seed word into the state pair.
    pub fn with(seed: u64) -> (r: Self)
        ensures
            (spec_splitmix64_out(seed, 0) != 0 || spec_splitmix64_out(seed, 1) != 0) ==> r.s0
                == spec_splitmix64_out(seed, 0) && r.s1 == spec_splitmix64_out(seed, 1),
            (spec_splitmix64_out(seed, 0) == 0 && spec_splitmix64_out(seed, 1) == 0) ==> r.s0
                == spec_splitmix64_out(0, 0) && r.s1 == spec_splitmix64_out(0, 1),
            r.s0 != 0 || r.s1 != 0,
    {
        let w = expand_u64::<2>(seed);
        Self::new(w[0], w[1])
    }

    /// The first state word, after which the state advances.
    pub fn random_u64(&mut self) -> (r: u64)
        ensures
            r == old(self).s0,
            final(self).s0 == spec_xoro64_next_s0(old(self).s0, old(self).s1, 24, 16),
            final(self).s1 == spec_xoro64_next_s1(old(self).s0, old(self).s1, 37),
    {
        let result = self.s0;
        let st = self.s1 ^ self.s0;
        self.s0 = rotl64(self.s0, 24) ^ st ^ (st << 16);
        self.s1 = rotl64(st, 37);
        result
    }

    /// The high half of the first state word, advancing by the dedicated
    /// 32-bit constants.
    pub fn random_u32(&mut self) -> (r: u32)
        ensures
            r == spec_u64_high(old(self).s0),
            final(self).s0 == spec_xoro64_next_s0(old(self).s0, old(self).s1, 9, 11),
            final(self).s1 == spec_xoro64_next_s1(old(self).s0, old(self).s1, 0),
    {
        let result = self.s0;
        let st = self.s1 ^ self.s0;
        self.s0 = rotl64(self.s0, 9) ^ st ^ (st << 11);
        self.s1 = rotl64(st, 0);
        (result >> 32) as u32
    }
}

/// The two-word 64-bit xoroshiro with the additive output scrambler.
#[derive(Debug, PartialEq, Eq, Structural)]
pub struct Xoroshiro128plus {
    pub s0: u64,
    pub s1: u64,
}

impl Xoroshiro128plus {
    /// Starts from an explicit state pair; the all-zero pair is repaired to
    /// the seed-zero expansion.
    pub fn new(s0: u64, s1: u64) -> (r: Self)
        ensures
            (s0 != 0 || s1 != 0) ==> r.s0 == s0 && r.s1 == s1,
            (s0 == 0 && s1 == 0) ==> r.s0 == spec_splitmix64_out(0, 0) && r.s1
                == spec_splitmix64_out(0, 1),
            r.s0 != 0 || r.s1 != 0,
    {
        if s0 != 0 || s1 != 0 {
            Xoroshiro128plus { s0, s1 }
        } else {
            proof {
                lemma_seed0_first_output();
            }
            let w = expand_u64::<2>(0);
            Xoroshiro128plus { s0: w[0], s1: w[1] }
        }
    }

    /// Expands one seed word into the state pair.
    pub fn with(seed: u64) -> (r: Self)
        ensures
            (spec_splitmix64_out(seed, 0) != 0 || spec_splitmix64_out(seed, 1) != 0) ==> r.s0
                == spec_splitmix64_out(seed, 0) && r.s1 == spec_splitmix64_out(seed, 1),
            (spec_splitmix64_out(seed, 0) == 0 && spec_splitmix64_out(seed, 1) == 0) ==> r.s0
                == spec_splitmix64_out(0, 0) && r.s1 == spec_splitmix64_out(0, 1),
            r.s0 != 0 || r.s1 != 0,
    {
        let w = expand_u64::<2>(seed);
        Self::new(w[0], w[1])
    }

    /// The sum of the two state words, after which the state advances.
    pub fn random_u64(&mut self) -> (r: u64)
        ensures
            r == wadd64(old(self).s0, old(self).s1),
            final(self).s0 == spec_xoro64_next_s0(old(self).s0, old(self).s1, 24, 16),
            final(self).s1 == spec_xoro64_next_s1(old(self).s0, old(self).s1, 37),
    {
        let result = self.s0.wrapping_add(self.s1);
        let st = self.s1 ^ self.s0;
        self.s0 = rotl64(self.s0, 24) ^ st ^ (st << 16);
        self.s1 = rotl64(st, 37);
        result
    }
}

/// The two-word 64-bit xoroshiro with the add-rotate-add output scrambler.
#[derive(Debug, PartialEq, Eq, Structural)]
pub struct Xoroshiro128plusplus {
    pub s0: u64,
    pub s1: u64,
}

impl Xoroshiro128plusplus {
    /// Starts from an explicit state pair; the all-zero pair is repaired to
    /// the seed-zero expansion.
    pub fn new(s0: u64, s1: u64) -> (r: Self)
        ensures
            (s0 != 0 || s1 != 0) ==> r.s0 == s0 && r.s1 == s1,
            (s0 == 0 && s1 == 0) ==> r.s0 == spec_splitmix64_out(0, 0) && r.s1
                == spec_splitmix64_out(0, 1),
            r.s0 != 0 || r.s1 != 0,
    {
        if s0 != 0 || s1 != 0 {
            Xoroshiro128plusplus { s0, s1 }
        } else {
            proof {
                lemma_seed0_first_output();
            }
            let w = expand_u64::<2>(0);
            Xoroshiro128plusplus { s0: w[0], s1: w[1] }
        }
    }

    /// Expands one seed word into the state pair.
    pub fn with(seed: u64) -> (r: Self)
        ensures
            (spec_splitmix64_out(seed, 0) != 0 || spec_splitmix64_out(seed, 1) != 0) ==> r.s0
                == spec_splitmix64_out(seed, 0) && r.s1 == spec_splitmix64_out(seed, 1),
            (spec_splitmix64_out(seed, 0) == 0 && spec_splitmix64_out(seed, 1) == 0) ==> r.s0
                == spec_splitmix64_out(0, 0) && r.s1 == spec_splitmix64_out(0, 1),
            r.s0 != 0 || r.s1 != 0,
    {
        let w = expand_u64::<2>(seed);
        Self::new(w[0], w[1])
    }

    /// The rotated sum re-added to the first word, after which the state
    /// advances by the dedicated constants.
    pub fn random_u64(&mut self) -> (r: u64)
        ensures
            r == wadd64(spec_rotl64(wadd64(old(self).s0, old(self).s1), 17), old(self).s0),
            final(self).s0 == spec_xoro64_next_s0(old(self).s0, old(self).s1, 49, 21),
            final(self).s1 == spec_xoro64_next_s1(old(self).s0, old(self).s1, 28),
    {
        let result = rotl64(self.s0.wrapping_add(self.s1), 17).wrapping_add(self.s0);
        let st = self.s1 ^ self.s0;
        self.s0 = rotl64(self.s0, 49) ^ st ^ (st << 21);
        self.s1 = rotl64(st, 28);
        result
    }

    /// The high half of the scrambled sum with a shorter rotation.
    pub fn random_u32(&mut self) -> (r: u32)
        ensures
            r == spec_u64_high(
                wadd64(spec_rotl64(wadd64(old(self).s0, old(self).s1), 7), old(self).s0),
            ),
            final(self).s0 == spec_xoro64_next_s0(old(self).s0, old(self).s1, 49, 21),
            final(self).s1 == spec_xoro64_next_s1(old(self).s0, old(self).s1, 28),
    {
        let result = rotl64(self.s0.wrapping_add(self.s1), 7).wrapping_add(self.s0);
        let st = self.s1 ^ self.s0;
        self.s0 = rotl64(self.s0, 49) ^ st ^ (st << 21);
        self.s1 = rotl64(st, 28);
        (result >> 32) as u32
    }
}

/// The two-word 64-bit xoroshiro with the multiplicative output scrambler.
#[derive(Debug, PartialEq, Eq, Structural)]
pub struct Xoroshiro128star {
    pub s0: u64,
    pub s1: u64,
}

impl Xoroshiro128star {
    /// Starts from an explicit state pair; the all-zero pair is repaired to
    /// the seed-zero expansion.
    pub fn new(s0: u64, s1: u64) -> (r: Self)
        ensures
            (s0 != 0 || s1 != 0) ==> r.s0 == s0 && r.s1 == s1,
            (s0 == 0 && s1 == 0) ==> r.s0 == spec_splitmix64_out(0, 0) && r.s1
                == spec_splitmix64_out(0, 1),
            r.s0 != 0 || r.s1 != 0,
    {
        if s0 != 0 || s1 != 0 {
            Xoroshiro128star { s0, s1 }
        } else {
            proof {
                lemma_seed0_first_output();
            }
            let w = expand_u64::<2>(0);
            Xoroshiro128star { s0: w[0], s1: w[1] }
        }
    }

    /// Expands one seed word into the state pair.
    pub fn with(seed: u64) -> (r: Self)
        ensures
            (spec_splitmix64_out(seed, 0) != 0 || spec_splitmix64_out(seed, 1) != 0) ==> r.s0
                == spec_splitmix64_out(seed, 0) && r.s1 == spec_splitmix64_out(seed, 1),
            (spec_splitmix64_out(seed, 0) == 0 && spec_splitmix64_out(seed, 1) == 0) ==> r.s0
                == spec_splitmix64_out(0, 0) && r.s1 == spec_splitmix64_out(0, 1),
            r.s0 != 0 || r.s1 != 0,
    {
        let w = expand_u64::<2>(seed);
        Self::new(w[0], w[1])
    }

    /// The first state word scaled by the odd constant, after which the
    /// state advances.
    pub fn random_u64(&mut self) -> (r: u64)
        ensures
            r == wmul64(old(self).s0, 0x9e3779b97f4a7c13),
            final(self).s0 == spec_xoro64_next_s0(old(self).s0, old(self).s1, 24, 16),
            final(self).s1 == spec_xoro64_next_s1(old(self).s0, old(self).s1, 37),
    {
        let result = self.s0.wrapping_mul(0x9e3779b97f4a7c13);
        let st = self.s1 ^ self.s0;
        self.s0 = rotl64(self.s0, 24) ^ st ^ (st << 16);
        self.s1 = rotl64(st, 37);
        result
    }
}

/// The two-word 64-bit xoroshiro with the multiply-rotate-multiply output
/// scrambler.
#[derive(Debug, PartialEq, Eq, Structural)]
pub struct Xoroshiro128starstar {
    pub s0: u64,
    pub s1: u64,
}

impl Xoroshiro128starstar {
    /// Starts from an explicit state pair; the all-zero pair is repaired to
    /// the seed-zero expansion.
    pub fn new(s0: u64, s1: u64) -> (r: Self)
        ensures
            (s0 != 0 || s1 != 0) ==> r.s0 == s0 && r.s1 == s1,
            (s0 == 0 && s1 == 0) ==> r.s0 == spec_splitmix64_out(0, 0) && r.s1
                == spec_splitmix64_out(0, 1),
            r.s0 != 0 || r.s1 != 0,
    {
        if s0 != 0 || s1 != 0 {
            Xoroshiro128starstar { s0, s1 }
        } else {
            proof {
                lemma_seed0_first_output();
            }
            let w = expand_u64::<2>(0);
            Xoroshiro128starstar { s0: w[0], s1: w[1] }
        }
    }

    /// Expands one seed word into the state pair.
    pub fn with(seed: u64) -> (r: Self)
        ensures
            (spec_splitmix64_out(seed, 0) != 0 || spec_splitmix64_out(seed, 1) != 0) ==> r.s0
                == spec_splitmix64_out(seed, 0) && r.s1 == spec_splitmix64_out(seed, 1),
            (spec_splitmix64_out(seed, 0) == 0 && spec_splitmix64_out(seed, 1) == 0) ==> r.s0
                == spec_splitmix64_out(0, 0) && r.s1 == spec_splitmix64_out(0, 1),
            r.s0 != 0 || r.s1 != 0,
    {
        let w = expand_u64::<2>(seed);
        Self::new(w[0], w[1])
    }

    /// The scrambled first state word, after which the state advances.
    pub fn random_u64(&mut self) -> (r: u64)
        ensures
            r == wmul64(spec_rotl64(wmul64(old(self).s0, 5), 7), 9),
            final(self).s0 == spec_xoro64_next_s0(old(self).s0, old(self).s1, 24, 16),
            final(self).s1 == spec_xoro64_next_s1(old(self).s0, old(self).s1, 37),
    {
        let result = rotl64(self.s0.wrapping_mul(5), 7).wrapping_mul(9);
        let st = self.s1 ^ self.s0;
        self.s0 = rotl64(self.s0, 24) ^ st ^ (st << 16);
        self.s1 = rotl64(st, 37);
        result
    }
}

} // verus!
