//! Xoshiro with four 64-bit state words.

use vstd::prelude::*;
use crate::scramble::{rotl64, spec_rotl64, wadd64, wmul64};
use crate::splitmix::{expand_u64, lemma_seed0_first_output, spec_splitmix64_out};

verus! {

/// The state words after one advance.
pub open spec fn spec_xoshiro256_next(
    s0: u64,
    s1: u64,
    s2: u64,
    s3: u64,
) -> (u64, u64, u64, u64) {
    let t = s0 << 17;
    let n2 = s2 ^ s0;
    let n3 = s3 ^ s1;
    let n1 = s1 ^ n2;
    let n0 = s0 ^ n3;
    let m2 = n2 ^ t;
    let m3 = spec_rotl64(n3, 45);
    (n0, n1, m2, m3)
}

/// The plain four-word 64-bit xoshiro: the output is the first state word.
#[derive(Debug, PartialEq, Eq, Structural)]
pub struct Xoshiro256 {
    pub s0: u64,
    pub s1: u64,
    pub s2: u64,
    pub s3: u64,
}

impl Xoshiro256 {
    /// Starts from an explicit state vector; the all-zero vector is a
    /// fixed point of the advance, so it is repaired to the seed-zero
    /// expansion.
    pub fn new(state: [u64; 4]) -> (r: Self)
        ensures
            (state@[0] != 0 || state@[1] != 0 || state@[2] != 0 || state@[3] != 0) ==>
                r.s0 == state@[0] && r.s1 == state@[1] && r.s2 == state@[2]
                && r.s3 == state@[3],
            (state@[0] == 0 && state@[1] == 0 && state@[2] == 0 && state@[3] == 0) ==>
                r.s0 == spec_splitmix64_out(0, 0) && r.s1 == spec_splitmix64_out(0, 1)
                && r.s2 == spec_splitmix64_out(0, 2) && r.s3 == spec_splitmix64_out(0, 3),
            r.s0 != 0 || r.s1 != 0 || r.s2 != 0 || r.s3 != 0,
    {
        if state[0] == 0 && state[1] == 0 && state[2] == 0 && state[3] == 0 {
            proof {
                lemma_seed0_first_output();
            }
            let w = expand_u64::<4>(0);
            Xoshiro256 { s0: w[0], s1: w[1], s2: w[2], s3: w[3] }
        } else {
            Xoshiro256 { s0: state[0], s1: state[1], s2: state[2], s3: state[3] }
        }
    }

    /// Expands one seed word into the state vector.
    pub fn with(seed: u64) -> (r: Self)
        ensures
            (spec_splitmix64_out(seed, 0) != 0 || spec_splitmix64_out(seed, 1) != 0
                || spec_splitmix64_out(seed, 2) != 0 || spec_splitmix64_out(seed, 3) != 0) ==>
                r.s0 == spec_splitmix64_out(seed, 0) && r.s1 == spec_splitmix64_out(seed, 1)
                && r.s2 == spec_splitmix64_out(seed, 2)
                && r.s3 == spec_splitmix64_out(seed, 3),
            (spec_splitmix64_out(seed, 0) == 0 && spec_splitmix64_out(seed, 1) == 0
                && spec_splitmix64_out(seed, 2) == 0 && spec_splitmix64_out(seed, 3) == 0) ==>
                r.s0 == spec_splitmix64_out(0, 0) && r.s1 == spec_splitmix64_out(0, 1)
                && r.s2 == spec_splitmix64_out(0, 2) && r.s3 == spec_splitmix64_out(0, 3),
            r.s0 != 0 || r.s1 != 0 || r.s2 != 0 || r.s3 != 0,
    {
        let w = expand_u64::<4>(seed);
        Self::new(w)
    }

    /// The first state word, after which the state advances.
    pub fn random_u64(&mut self) -> (r: u64)
        ensures
            r == old(self).s0,
            ({
                let n = spec_xoshiro256_next(
                    old(self).s0,
                    old(self).s1,
                    old(self).s2,
                    old(self).s3,
                );
                &&& final(self).s0 == n.0
                &&& final(self).s1 == n.1
                &&& final(self).s2 == n.2
                &&& final(self).s3 == n.3
            }),
    {
        let result = self.s0;
        let t = self.s0 << 17;
        self.s2 ^= self.s0;
        self.s3 ^= self.s1;
        self.s1 ^= self.s2;
        self.s0 ^= self.s3;
        self.s2 ^= t;
        self.s3 = rotl64(self.s3, 45);
        result
    }
}

impl Default for Xoshiro256 {
    /// The default stream starts from the seed-zero expansion.
    fn default() -> (r: Self)
        ensures
            r.s0 == spec_splitmix64_out(0, 0) && r.s1 == spec_splitmix64_out(0, 1)
                && r.s2 == spec_splitmix64_out(0, 2) && r.s3 == spec_splitmix64_out(0, 3),
    {
        proof {
            lemma_seed0_first_output();
        }
        Self::with(0)
    }
}

/// The four-word 64-bit xoshiro with the additive output scrambler.
#[derive(Debug, PartialEq, Eq, Structural)]
pub struct Xoshiro256plus {
    pub s0: u64,
    pub s1: u64,
    pub s2: u64,
    pub s3: u64,
}

impl Xoshiro256plus {
    /// Starts from an explicit state vector; the all-zero vector is a
    /// fixed point of the advance, so it is repaired to the seed-zero
    /// expansion.
    pub fn new(state: [u64; 4]) -> (r: Self)
        ensures
            (state@[0] != 0 || state@[1] != 0 || state@[2] != 0 || state@[3] != 0) ==>
                r.s0 == state@[0] && r.s1 == state@[1] && r.s2 == state@[2]
                && r.s3 == state@[3],
            (state@[0] == 0 && state@[1] == 0 && state@[2] == 0 && state@[3] == 0) ==>
                r.s0 == spec_splitmix64_out(0, 0) && r.s1 == spec_splitmix64_out(0, 1)
                && r.s2 == spec_splitmix64_out(0, 2) && r.s3 == spec_splitmix64_out(0, 3),
            r.s0 != 0 || r.s1 != 0 || r.s2 != 0 || r.s3 != 0,
    {
        if state[0] == 0 && state[1] == 0 && state[2] == 0 && state[3] == 0 {
            proof {
                lemma_seed0_first_output();
            }
            let w = expand_u64::<4>(0);
            Xoshiro256plus { s0: w[0], s1: w[1], s2: w[2], s3: w[3] }
        } else {
            Xoshiro256plus { s0: state[0], s1: state[1], s2: state[2], s3: state[3] }
        }
    }

    /// Expands one seed word into the state vector.
    pub fn with(seed: u64) -> (r: Self)
        ensures
            (spec_splitmix64_out(seed, 0) != 0 || spec_splitmix64_out(seed, 1) != 0
                || spec_splitmix64_out(seed, 2) != 0 || spec_splitmix64_out(seed, 3) != 0) ==>
                r.s0 == spec_splitmix64_out(seed, 0) && r.s1 == spec_splitmix64_out(seed, 1)
                && r.s2 == spec_splitmix64_out(seed, 2)
                && r.s3 == spec_splitmix64_out(seed, 3),
            (spec_splitmix64_out(seed, 0) == 0 && spec_splitmix64_out(seed, 1) == 0
                && spec_splitmix64_out(seed, 2) == 0 && spec_splitmix64_out(seed, 3) == 0) ==>
                r.s0 == spec_splitmix64_out(0, 0) && r.s1 == spec_splitmix64_out(0, 1)
                && r.s2 == spec_splitmix64_out(0, 2) && r.s3 == spec_splitmix64_out(0, 3),
            r.s0 != 0 || r.s1 != 0 || r.s2 != 0 || r.s3 != 0,
    {
        let w = expand_u64::<4>(seed);
        Self::new(w)
    }

    /// The sum of the first and last state words, after which the state
    /// advances.
    pub fn random_u64(&mut self) -> (r: u64)
        ensures
            r == wadd64(old(self).s0, old(self).s3),
            ({
                let n = spec_xoshiro256_next(
                    old(self).s0,
                    old(self).s1,
                    old(self).s2,
                    old(self).s3,
                );
                &&& final(self).s0 == n.0
                &&& final(self).s1 == n.1
                &&& final(self).s2 == n.2
                &&& final(self).s3 == n.3
            }),
    {
        let result = self.s0.wrapping_add(self.s3);
        let t = self.s0 << 17;
        self.s2 ^= self.s0;
        self.s3 ^= self.s1;
        self.s1 ^= self.s2;
        self.s0 ^= self.s3;
        self.s2 ^= t;
        self.s3 = rotl64(self.s3, 45);
        result
    }
}

impl Default for Xoshiro256plus {
    /// The default stream starts from the seed-zero expansion.
    fn default() -> (r: Self)
        ensures
            r.s0 == spec_splitmix64_out(0, 0) && r.s1 == spec_splitmix64_out(0, 1)
                && r.s2 == spec_splitmix64_out(0, 2) && r.s3 == spec_splitmix64_out(0, 3),
    {
        proof {
            lemma_seed0_first_output();
        }
        Self::with(0)
    }
}

/// The four-word 64-bit xoshiro with the add-rotate-add output scrambler.
#[derive(Debug, PartialEq, Eq, Structural)]
pub struct Xoshiro256plusplus {
    pub s0: u64,
    pub s1: u64,
    pub s2: u64,
    pub s3: u64,
}

impl Xoshiro256plusplus {
    /// Starts from an explicit state vector; the all-zero vector is a
    /// fixed point of the advance, so it is repaired to the seed-zero
    /// expansion.
    pub fn new(state: [u64; 4]) -> (r: Self)
        ensures
            (state@[0] != 0 || state@[1] != 0 || state@[2] != 0 || state@[3] != 0) ==>
                r.s0 == state@[0] && r.s1 == state@[1] && r.s2 == state@[2]
                && r.s3 == state@[3],
            (state@[0] == 0 && state@[1] == 0 && state@[2] == 0 && state@[3] == 0) ==>
                r.s0 == spec_splitmix64_out(0, 0) && r.s1 == spec_splitmix64_out(0, 1)
                && r.s2 == spec_splitmix64_out(0, 2) && r.s3 == spec_splitmix64_out(0, 3),
            r.s0 != 0 || r.s1 != 0 || r.s2 != 0 || r.s3 != 0,
    {
        if state[0] == 0 && state[1] == 0 && state[2] == 0 && state[3] == 0 {
            proof {
                lemma_seed0_first_output();
            }
            let w = expand_u64::<4>(0);
            Xoshiro256plusplus { s0: w[0], s1: w[1], s2: w[2], s3: w[3] }
        } else {
            Xoshiro256plusplus { s0: state[0], s1: state[1], s2: state[2], s3: state[3] }
        }
    }

    /// Expands one seed word into the state vector.
    pub fn with(seed: u64) -> (r: Self)
        ensures
            (spec_splitmix64_out(seed, 0) != 0 || spec_splitmix64_out(seed, 1) != 0
                || spec_splitmix64_out(seed, 2) != 0 || spec_splitmix64_out(seed, 3) != 0) ==>
                r.s0 == spec_splitmix64_out(seed, 0) && r.s1 == spec_splitmix64_out(seed, 1)
                && r.s2 == spec_splitmix64_out(seed, 2)
                && r.s3 == spec_splitmix64_out(seed, 3),
            (spec_splitmix64_out(seed, 0) == 0 && spec_splitmix64_out(seed, 1) == 0
                && spec_splitmix64_out(seed, 2) == 0 && spec_splitmix64_out(seed, 3) == 0) ==>
                r.s0 == spec_splitmix64_out(0, 0) && r.s1 == spec_splitmix64_out(0, 1)
                && r.s2 == spec_splitmix64_out(0, 2) && r.s3 == spec_splitmix64_out(0, 3),
            r.s0 != 0 || r.s1 != 0 || r.s2 != 0 || r.s3 != 0,
    {
        let w = expand_u64::<4>(seed);
        Self::new(w)
    }

    /// The rotated sum re-added to the first word, after which the state
    /// advances.
    pub fn random_u64(&mut self) -> (r: u64)
        ensures
            r == wadd64(spec_rotl64(wadd64(old(self).s0, old(self).s3), 23), old(self).s0),
            ({
                let n = spec_xoshiro256_next(
                    old(self).s0,
                    old(self).s1,
                    old(self).s2,
                    old(self).s3,
                );
                &&& final(self).s0 == n.0
                &&& final(self).s1 == n.1
                &&& final(self).s2 == n.2
                &&& final(self).s3 == n.3
            }),
    {
        let result = rotl64(self.s0.wrapping_add(self.s3), 23).wrapping_add(self.s0);
        let t = self.s0 << 17;
        self.s2 ^= self.s0;
        self.s3 ^= self.s1;
        self.s1 ^= self.s2;
        self.s0 ^= self.s3;
        self.s2 ^= t;
        self.s3 = rotl64(self.s3, 45);
        result
    }
}

impl Default for Xoshiro256plusplus {
    /// The default stream starts from the seed-zero expansion.
    fn default() -> (r: Self)
        ensures
            r.s0 == spec_splitmix64_out(0, 0) && r.s1 == spec_splitmix64_out(0, 1)
                && r.s2 == spec_splitmix64_out(0, 2) && r.s3 == spec_splitmix64_out(0, 3),
    {
        proof {
            lemma_seed0_first_output();
        }
        Self::with(0)
    }
}

/// The four-word 64-bit xoshiro with the multiply-rotate-multiply output
/// scrambler.
#[derive(Debug, PartialEq, Eq, Structural)]
pub struct Xoshiro256starstar {
    pub s0: u64,
    pub s1: u64,
    pub s2: u64,
    pub s3: u64,
}

impl Xoshiro256starstar {
    /// Starts from an explicit state vector; the all-zero vector is a
    /// fixed point of the advance, so it is repaired to the seed-zero
    /// expansion.
    pub fn new(state: [u64; 4]) -> (r: Self)
        ensures
            (state@[0] != 0 || state@[1] != 0 || state@[2] != 0 || state@[3] != 0) ==>
                r.s0 == state@[0] && r.s1 == state@[1] && r.s2 == state@[2]
                && r.s3 == state@[3],
            (state@[0] == 0 && state@[1] == 0 && state@[2] == 0 && state@[3] == 0) ==>
                r.s0 == spec_splitmix64_out(0, 0) && r.s1 == spec_splitmix64_out(0, 1)
                && r.s2 == spec_splitmix64_out(0, 2) && r.s3 == spec_splitmix64_out(0, 3),
            r.s0 != 0 || r.s1 != 0 || r.s2 != 0 || r.s3 != 0,
    {
        if state[0] == 0 && state[1] == 0 && state[2] == 0 && state[3] == 0 {
            proof {
                lemma_seed0_first_output();
            }
            let w = expand_u64::<4>(0);
            Xoshiro256starstar { s0: w[0], s1: w[1], s2: w[2], s3: w[3] }
        } else {
            Xoshiro256starstar { s0: state[0], s1: state[1], s2: state[2], s3: state[3] }
        }
    }

    /// Expands one seed word into the state vector.
    pub fn with(seed: u64) -> (r: Self)
        ensures
            (spec_splitmix64_out(seed, 0) != 0 || spec_splitmix64_out(seed, 1) != 0
                || spec_splitmix64_out(seed, 2) != 0 || spec_splitmix64_out(seed, 3) != 0) ==>
                r.s0 == spec_splitmix64_out(seed, 0) && r.s1 == spec_splitmix64_out(seed, 1)
                && r.s2 == spec_splitmix64_out(seed, 2)
                && r.s3 == spec_splitmix64_out(seed, 3),
            (spec_splitmix64_out(seed, 0) == 0 && spec_splitmix64_out(seed, 1) == 0
                && spec_splitmix64_out(seed, 2) == 0 && spec_splitmix64_out(seed, 3) == 0) ==>
                r.s0 == spec_splitmix64_out(0, 0) && r.s1 == spec_splitmix64_out(0, 1)
                && r.s2 == spec_splitmix64_out(0, 2) && r.s3 == spec_splitmix64_out(0, 3),
            r.s0 != 0 || r.s1 != 0 || r.s2 != 0 || r.s3 != 0,
    {
        let w = expand_u64::<4>(seed);
        Self::new(w)
    }

    /// The scrambled second state word, after which the state advances.
    pub fn random_u64(&mut self) -> (r: u64)
        ensures
            r == wmul64(spec_rotl64(wmul64(old(self).s1, 5), 7), 9),
            ({
                let n = spec_xoshiro256_next(
                    old(self).s0,
                    old(self).s1,
                    old(self).s2,
                    old(self).s3,
                );
                &&& final(self).s0 == n.0
                &&& final(self).s1 == n.1
                &&& final(self).s2 == n.2
                &&& final(self).s3 == n.3
            }),
    {
        let result = rotl64(self.s1.wrapping_mul(5), 7).wrapping_mul(9);
        let t = self.s0 << 17;
        self.s2 ^= self.s0;
        self.s3 ^= self.s1;
        self.s1 ^= self.s2;
        self.s0 ^= self.s3;
        self.s2 ^= t;
        self.s3 = rotl64(self.s3, 45);
        result
    }
}

impl Default for Xoshiro256starstar {
    /// The default stream starts from the seed-zero expansion.
    fn default() -> (r: Self)
        ensures
            r.s0 == spec_splitmix64_out(0, 0) && r.s1 == spec_splitmix64_out(0, 1)
                && r.s2 == spec_splitmix64_out(0, 2) && r.s3 == spec_splitmix64_out(0, 3),
    {
        proof {
            lemma_seed0_first_output();
        }
        Self::with(0)
    }
}

} // verus!
