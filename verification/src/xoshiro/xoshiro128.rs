//! Xoshiro with four 32-bit state words.

use vstd::prelude::*;
use crate::scramble::{rotl32, spec_rotl32, wadd32, wmul32};
use crate::splitmix::{expand_u32, lemma_seed0_first_output, spec_expanded32};

verus! {

/// The state words after one advance.
pub open spec fn spec_xoshiro128_next(
    s0: u32,
    s1: u32,
    s2: u32,
    s3: u32,
) -> (u32, u32, u32, u32) {
    let t = s0 << 9;
    let n2 = s2 ^ s0;
    let n3 = s3 ^ s1;
    let n1 = s1 ^ n2;
    let n0 = s0 ^ n3;
    let m2 = n2 ^ t;
    let m3 = spec_rotl32(n3, 11);
    (n0, n1, m2, m3)
}

/// The plain four-word 32-bit xoshiro: the output is the first state word.
#[derive(Debug, PartialEq, Eq, Structural)]
pub struct Xoshiro128 {
    pub s0: u32,
    pub s1: u32,
    pub s2: u32,
    pub s3: u32,
}

impl Xoshiro128 {
    /// Starts from an explicit state vector; the all-zero vector is a
    /// fixed point of the advance, so it is repaired to the seed-zero
    /// expansion.
    pub fn new(state: [u32; 4]) -> (r: Self)
        ensures
            (state@[0] != 0 || state@[1] != 0 || state@[2] != 0 || state@[3] != 0) ==>
                r.s0 == state@[0] && r.s1 == state@[1] && r.s2 == state@[2]
                && r.s3 == state@[3],
            (state@[0] == 0 && state@[1] == 0 && state@[2] == 0 && state@[3] == 0) ==>
                r.s0 == spec_expanded32(0, 0) && r.s1 == spec_expanded32(0, 1)
                && r.s2 == spec_expanded32(0, 2) && r.s3 == spec_expanded32(0, 3),
            r.s0 != 0 || r.s1 != 0 || r.s2 != 0 || r.s3 != 0,
    {
        if state[0] == 0 && state[1] == 0 && state[2] == 0 && state[3] == 0 {
            proof {
                lemma_seed0_first_output();
            }
            let w = expand_u32::<4>(0);
            Xoshiro128 { s0: w[0], s1: w[1], s2: w[2], s3: w[3] }
        } else {
            Xoshiro128 { s0: state[0], s1: state[1], s2: state[2], s3: state[3] }
        }
    }

    /// Expands one seed word into the state vector.
    pub fn with(seed: u64) -> (r: Self)
        ensures
            (spec_expanded32(seed, 0) != 0 || spec_expanded32(seed, 1) != 0
                || spec_expanded32(seed, 2) != 0 || spec_expanded32(seed, 3) != 0) ==>
                r.s0 == spec_expanded32(seed, 0) && r.s1 == spec_expanded32(seed, 1)
                && r.s2 == spec_expanded32(seed, 2) && r.s3 == spec_expanded32(seed, 3),
            (spec_expanded32(seed, 0) == 0 && spec_expanded32(seed, 1) == 0
                && spec_expanded32(seed, 2) == 0 && spec_expanded32(seed, 3) == 0) ==>
                r.s0 == spec_expanded32(0, 0) && r.s1 == spec_expanded32(0, 1)
                && r.s2 == spec_expanded32(0, 2) && r.s3 == spec_expanded32(0, 3),
            r.s0 != 0 || r.s1 != 0 || r.s2 != 0 || r.s3 != 0,
    {
        let w = expand_u32::<4>(seed);
        Self::new(w)
    }

    /// The first state word, after which the state advances.
    pub fn random_u32(&mut self) -> (r: u32)
        ensures
            r == old(self).s0,
            ({
                let n = spec_xoshiro128_next(
                    old(self).s0,
                    old(self).s1,
                    old(self).s2,
                    old(self).s3,
                );
                &&& final(self).s0 == n.0
                &&& final(self).s1 == n.1
                &&& final(self).s2 == n.2
                &&& final(self).s3 == n.3
            }),
    {
        let result = self.s0;
        let t = self.s0 << 9;
        self.s2 ^= self.s0;
        self.s3 ^= self.s1;
        self.s1 ^= self.s2;
        self.s0 ^= self.s3;
        self.s2 ^= t;
        self.s3 = rotl32(self.s3, 11);
        result
    }
}

impl Default for Xoshiro128 {
    /// The default stream starts from the seed-zero expansion.
    fn default() -> (r: Self)
        ensures
            r.s0 == spec_expanded32(0, 0) && r.s1 == spec_expanded32(0, 1)
                && r.s2 == spec_expanded32(0, 2) && r.s3 == spec_expanded32(0, 3),
    {
        proof {
            lemma_seed0_first_output();
        }
        Self::with(0)
    }
}

/// The four-word 32-bit xoshiro with the additive output scrambler.
#[derive(Debug, PartialEq, Eq, Structural)]
pub struct Xoshiro128plus {
    pub s0: u32,
    pub s1: u32,
    pub s2: u32,
    pub s3: u32,
}

impl Xoshiro128plus {
    /// Starts from an explicit state vector; the all-zero vector is a
    /// fixed point of the advance, so it is repaired to the seed-zero
    /// expansion.
    pub fn new(state: [u32; 4]) -> (r: Self)
        ensures
            (state@[0] != 0 || state@[1] != 0 || state@[2] != 0 || state@[3] != 0) ==>
                r.s0 == state@[0] && r.s1 == state@[1] && r.s2 == state@[2]
                && r.s3 == state@[3],
            (state@[0] == 0 && state@[1] == 0 && state@[2] == 0 && state@[3] == 0) ==>
                r.s0 == spec_expanded32(0, 0) && r.s1 == spec_expanded32(0, 1)
                && r.s2 == spec_expanded32(0, 2) && r.s3 == spec_expanded32(0, 3),
            r.s0 != 0 || r.s1 != 0 || r.s2 != 0 || r.s3 != 0,
    {
        if state[0] == 0 && state[1] == 0 && state[2] == 0 && state[3] == 0 {
            proof {
                lemma_seed0_first_output();
            }
            let w = expand_u32::<4>(0);
            Xoshiro128plus { s0: w[0], s1: w[1], s2: w[2], s3: w[3] }
        } else {
            Xoshiro128plus { s0: state[0], s1: state[1], s2: state[2], s3: state[3] }
        }
    }

    /// Expands one seed word into the state vector.
    pub fn with(seed: u64) -> (r: Self)
        ensures
            (spec_expanded32(seed, 0) != 0 || spec_expanded32(seed, 1) != 0
                || spec_expanded32(seed, 2) != 0 || spec_expanded32(seed, 3) != 0) ==>
                r.s0 == spec_expanded32(seed, 0) && r.s1 == spec_expanded32(seed, 1)
                && r.s2 == spec_expanded32(seed, 2) && r.s3 == spec_expanded32(seed, 3),
            (spec_expanded32(seed, 0) == 0 && spec_expanded32(seed, 1) == 0
                && spec_expanded32(seed, 2) == 0 && spec_expanded32(seed, 3) == 0) ==>
                r.s0 == spec_expanded32(0, 0) && r.s1 == spec_expanded32(0, 1)
                && r.s2 == spec_expanded32(0, 2) && r.s3 == spec_expanded32(0, 3),
            r.s0 != 0 || r.s1 != 0 || r.s2 != 0 || r.s3 != 0,
    {
        let w = expand_u32::<4>(seed);
        Self::new(w)
    }

    /// The sum of the first and last state words, after which the state
    /// advances.
    pub fn random_u32(&mut self) -> (r: u32)
        ensures
            r == wadd32(old(self).s0, old(self).s3),
            ({
                let n = spec_xoshiro128_next(
                    old(self).s0,
                    old(self).s1,
                    old(self).s2,
                    old(self).s3,
                );
                &&& final(self).s0 == n.0
                &&& final(self).s1 == n.1
                &&& final(self).s2 == n.2
                &&& final(self).s3 == n.3
            }),
    {
        let result = self.s0.wrapping_add(self.s3);
        let t = self.s0 << 9;
        self.s2 ^= self.s0;
        self.s3 ^= self.s1;
        self.s1 ^= self.s2;
        self.s0 ^= self.s3;
        self.s2 ^= t;
        self.s3 = rotl32(self.s3, 11);
        result
    }
}

impl Default for Xoshiro128plus {
    /// The default stream starts from the seed-zero expansion.
    fn default() -> (r: Self)
        ensures
            r.s0 == spec_expanded32(0, 0) && r.s1 == spec_expanded32(0, 1)
                && r.s2 == spec_expanded32(0, 2) && r.s3 == spec_expanded32(0, 3),
    {
        proof {
            lemma_seed0_first_output();
        }
        Self::with(0)
    }
}

/// The four-word 32-bit xoshiro with the add-rotate-add output scrambler.
#[derive(Debug, PartialEq, Eq, Structural)]
pub struct Xoshiro128plusplus {
    pub s0: u32,
    pub s1: u32,
    pub s2: u32,
    pub s3: u32,
}

impl Xoshiro128plusplus {
    /// Starts from an explicit state vector; the all-zero vector is a
    /// fixed point of the advance, so it is repaired to the seed-zero
    /// expansion.
    pub fn new(state: [u32; 4]) -> (r: Self)
        ensures
            (state@[0] != 0 || state@[1] != 0 || state@[2] != 0 || state@[3] != 0) ==>
                r.s0 == state@[0] && r.s1 == state@[1] && r.s2 == state@[2]
                && r.s3 == state@[3],
            (state@[0] == 0 && state@[1] == 0 && state@[2] == 0 && state@[3] == 0) ==>
                r.s0 == spec_expanded32(0, 0) && r.s1 == spec_expanded32(0, 1)
                && r.s2 == spec_expanded32(0, 2) && r.s3 == spec_expanded32(0, 3),
            r.s0 != 0 || r.s1 != 0 || r.s2 != 0 || r.s3 != 0,
    {
        if state[0] == 0 && state[1] == 0 && state[2] == 0 && state[3] == 0 {
            proof {
                lemma_seed0_first_output();
            }
            let w = expand_u32::<4>(0);
            Xoshiro128plusplus { s0: w[0], s1: w[1], s2: w[2], s3: w[3] }
        } else {
            Xoshiro128plusplus { s0: state[0], s1: state[1], s2: state[2], s3: state[3] }
        }
    }

    /// Expands one seed word into the state vector.
    pub fn with(seed: u64) -> (r: Self)
        ensures
            (spec_expanded32(seed, 0) != 0 || spec_expanded32(seed, 1) != 0
                || spec_expanded32(seed, 2) != 0 || spec_expanded32(seed, 3) != 0) ==>
                r.s0 == spec_expanded32(seed, 0) && r.s1 == spec_expanded32(seed, 1)
                && r.s2 == spec_expanded32(seed, 2) && r.s3 == spec_expanded32(seed, 3),
            (spec_expanded32(seed, 0) == 0 && spec_expanded32(seed, 1) == 0
                && spec_expanded32(seed, 2) == 0 && spec_expanded32(seed, 3) == 0) ==>
                r.s0 == spec_expanded32(0, 0) && r.s1 == spec_expanded32(0, 1)
                && r.s2 == spec_expanded32(0, 2) && r.s3 == spec_expanded32(0, 3),
            r.s0 != 0 || r.s1 != 0 || r.s2 != 0 || r.s3 != 0,
    {
        let w = expand_u32::<4>(seed);
        Self::new(w)
    }

    /// The rotated sum re-added to the first word, after which the state
    /// advances.
    pub fn random_u32(&mut self) -> (r: u32)
        ensures
            r == wadd32(spec_rotl32(wadd32(old(self).s0, old(self).s3), 17), old(self).s0),
            ({
                let n = spec_xoshiro128_next(
                    old(self).s0,
                    old(self).s1,
                    old(self).s2,
                    old(self).s3,
                );
                &&& final(self).s0 == n.0
                &&& final(self).s1 == n.1
                &&& final(self).s2 == n.2
                &&& final(self).s3 == n.3
            }),
    {
        let result = rotl32(self.s0.wrapping_add(self.s3), 17).wrapping_add(self.s0);
        let t = self.s0 << 9;
        self.s2 ^= self.s0;
        self.s3 ^= self.s1;
        self.s1 ^= self.s2;
        self.s0 ^= self.s3;
        self.s2 ^= t;
        self.s3 = rotl32(self.s3, 11);
        result
    }
}

impl Default for Xoshiro128plusplus {
    /// The default stream starts from the seed-zero expansion.
    fn default() -> (r: Self)
        ensures
            r.s0 == spec_expanded32(0, 0) && r.s1 == spec_expanded32(0, 1)
                && r.s2 == spec_expanded32(0, 2) && r.s3 == spec_expanded32(0, 3),
    {
        proof {
            lemma_seed0_first_output();
        }
        Self::with(0)
    }
}

/// The four-word 32-bit xoshiro with the multiply-rotate-multiply output
/// scrambler.
#[derive(Debug, PartialEq, Eq, Structural)]
pub struct Xoshiro128starstar {
    pub s0: u32,
    pub s1: u32,
    pub s2: u32,
    pub s3: u32,
}

impl Xoshiro128starstar {
    /// Starts from an explicit state vector; the all-zero vector is a
    /// fixed point of the advance, so it is repaired to the seed-zero
    /// expansion.
    pub fn new(state: [u32; 4]) -> (r: Self)
        ensures
            (state@[0] != 0 || state@[1] != 0 || state@[2] != 0 || state@[3] != 0) ==>
                r.s0 == state@[0] && r.s1 == state@[1] && r.s2 == state@[2]
                && r.s3 == state@[3],
            (state@[0] == 0 && state@[1] == 0 && state@[2] == 0 && state@[3] == 0) ==>
                r.s0 == spec_expanded32(0, 0) && r.s1 == spec_expanded32(0, 1)
                && r.s2 == spec_expanded32(0, 2) && r.s3 == spec_expanded32(0, 3),
            r.s0 != 0 || r.s1 != 0 || r.s2 != 0 || r.s3 != 0,
    {
        if state[0] == 0 && state[1] == 0 && state[2] == 0 && state[3] == 0 {
            proof {
                lemma_seed0_first_output();
            }
            let w = expand_u32::<4>(0);
            Xoshiro128starstar { s0: w[0], s1: w[1], s2: w[2], s3: w[3] }
        } else {
            Xoshiro128starstar { s0: state[0], s1: state[1], s2: state[2], s3: state[3] }
        }
    }

    /// Expands one seed word into the state vector.
    pub fn with(seed: u64) -> (r: Self)
        ensures
            (spec_expanded32(seed, 0) != 0 || spec_expanded32(seed, 1) != 0
                || spec_expanded32(seed, 2) != 0 || spec_expanded32(seed, 3) != 0) ==>
                r.s0 == spec_expanded32(seed, 0) && r.s1 == spec_expanded32(seed, 1)
                && r.s2 == spec_expanded32(seed, 2) && r.s3 == spec_expanded32(seed, 3),
            (spec_expanded32(seed, 0) == 0 && spec_expanded32(seed, 1) == 0
                && spec_expanded32(seed, 2) == 0 && spec_expanded32(seed, 3) == 0) ==>
                r.s0 == spec_expanded32(0, 0) && r.s1 == spec_expanded32(0, 1)
                && r.s2 == spec_expanded32(0, 2) && r.s3 == spec_expanded32(0, 3),
            r.s0 != 0 || r.s1 != 0 || r.s2 != 0 || r.s3 != 0,
    {
        let w = expand_u32::<4>(seed);
        Self::new(w)
    }

    /// The scrambled second state word, after which the state advances.
    pub fn random_u32(&mut self) -> (r: u32)
        ensures
            r == wmul32(spec_rotl32(wmul32(old(self).s1, 5), 7), 9),
            ({
                let n = spec_xoshiro128_next(
                    old(self).s0,
                    old(self).s1,
                    old(self).s2,
                    old(self).s3,
                );
                &&& final(self).s0 == n.0
                &&& final(self).s1 == n.1
                &&& final(self).s2 == n.2
                &&& final(self).s3 == n.3
            }),
    {
        let result = rotl32(self.s1.wrapping_mul(5), 7).wrapping_mul(9);
        let t = self.s0 << 9;
        self.s2 ^= self.s0;
        self.s3 ^= self.s1;
        self.s1 ^= self.s2;
        self.s0 ^= self.s3;
        self.s2 ^= t;
        self.s3 = rotl32(self.s3, 11);
        result
    }
}

impl Default for Xoshiro128starstar {
    /// The default stream starts from the seed-zero expansion.
    fn default() -> (r: Self)
        ensures
            r.s0 == spec_expanded32(0, 0) && r.s1 == spec_expanded32(0, 1)
                && r.s2 == spec_expanded32(0, 2) && r.s3 == spec_expanded32(0, 3),
    {
        proof {
            lemma_seed0_first_output();
        }
        Self::with(0)
    }
}

} // verus!
