//! Xoshiro with eight 64-bit state words.

use vstd::prelude::*;
use crate::scramble::{rotl64, spec_rotl64, wadd64, wmul64};
use crate::splitmix::{expand_u64, lemma_seed0_first_output, spec_splitmix64_out};

verus! {

/// The state words after one advance.
pub open spec fn spec_xoshiro512_next(
    s0: u64,
    s1: u64,
    s2: u64,
    s3: u64,
    s4: u64,
    s5: u64,
    s6: u64,
    s7: u64,
) -> (u64, u64, u64, u64, u64, u64, u64, u64) {
    let t = s0 << 11;
    let n2 = s2 ^ s0;
    let n5 = s5 ^ s1;
    let n1 = s1 ^ n2;
    let n7 = s7 ^ s3;
    let n3 = s3 ^ s4;
    let n4 = s4 ^ n5;
    let n0 = s0 ^ s6;
    let n6 = s6 ^ n7;
    let m6 = n6 ^ t;
    let m7 = spec_rotl64(n7, 21);
    (n0, n1, n2, n3, n4, n5, m6, m7)
}

/// The plain eight-word 64-bit xoshiro: the output is the first state word.
#[derive(Debug, PartialEq, Eq, Structural)]
pub struct Xoshiro512 {
    pub s0: u64,
    pub s1: u64,
    pub s2: u64,
    pub s3: u64,
    pub s4: u64,
    pub s5: u64,
    pub s6: u64,
    pub s7: u64,
}

impl Xoshiro512 {
    /// Starts from an explicit state vector; the all-zero vector is a
    /// fixed point of the advance, so it is repaired to the seed-zero
    /// expansion.
    pub fn new(state: [u64; 8]) -> (r: Self)
        ensures
            (state@[0] != 0 || state@[1] != 0 || state@[2] != 0 || state@[3] != 0
                || state@[4] != 0 || state@[5] != 0 || state@[6] != 0 || state@[7] != 0) ==>
                r.s0 == state@[0] && r.s1 == state@[1] && r.s2 == state@[2]
                && r.s3 == state@[3] && r.s4 == state@[4] && r.s5 == state@[5]
                && r.s6 == state@[6] && r.s7 == state@[7],
            (state@[0] == 0 && state@[1] == 0 && state@[2] == 0 && state@[3] == 0
                && state@[4] == 0 && state@[5] == 0 && state@[6] == 0 && state@[7] == 0) ==>
                r.s0 == spec_splitmix64_out(0, 0) && r.s1 == spec_splitmix64_out(0, 1)
                && r.s2 == spec_splitmix64_out(0, 2) && r.s3 == spec_splitmix64_out(0, 3)
                && r.s4 == spec_splitmix64_out(0, 4) && r.s5 == spec_splitmix64_out(0, 5)
                && r.s6 == spec_splitmix64_out(0, 6) && r.s7 == spec_splitmix64_out(0, 7),
            r.s0 != 0 || r.s1 != 0 || r.s2 != 0 || r.s3 != 0 || r.s4 != 0 || r.s5 != 0
                || r.s6 != 0 || r.s7 != 0,
    {
        if state[0] == 0 && state[1] == 0 && state[2] == 0 && state[3] == 0 && state[4] == 0
            && state[5] == 0 && state[6] == 0 && state[7] == 0 {
            proof {
                lemma_seed0_first_output();
            }
            let w = expand_u64::<8>(0);
            Xoshiro512 {
                s0: w[0],
                s1: w[1],
                s2: w[2],
                s3: w[3],
                s4: w[4],
                s5: w[5],
                s6: w[6],
                s7: w[7],
            }
        } else {
            Xoshiro512 {
                s0: state[0],
                s1: state[1],
                s2: state[2],
                s3: state[3],
                s4: state[4],
                s5: state[5],
                s6: state[6],
                s7: state[7],
            }
        }
    }

    /// Expands one seed word into the state vector.
    pub fn with(seed: u64) -> (r: Self)
        ensures
            (spec_splitmix64_out(seed, 0) != 0 || spec_splitmix64_out(seed, 1) != 0
                || spec_splitmix64_out(seed, 2) != 0 || spec_splitmix64_out(seed, 3) != 0
                || spec_splitmix64_out(seed, 4) != 0 || spec_splitmix64_out(seed, 5) != 0
                || spec_splitmix64_out(seed, 6) != 0 || spec_splitmix64_out(seed, 7) != 0) ==>
                r.s0 == spec_splitmix64_out(seed, 0) && r.s1 == spec_splitmix64_out(seed, 1)
                && r.s2 == spec_splitmix64_out(seed, 2)
                && r.s3 == spec_splitmix64_out(seed, 3)
                && r.s4 == spec_splitmix64_out(seed, 4)
                && r.s5 == spec_splitmix64_out(seed, 5)
                && r.s6 == spec_splitmix64_out(seed, 6)
                && r.s7 == spec_splitmix64_out(seed, 7),
            (spec_splitmix64_out(seed, 0) == 0 && spec_splitmix64_out(seed, 1) == 0
                && spec_splitmix64_out(seed, 2) == 0 && spec_splitmix64_out(seed, 3) == 0
                && spec_splitmix64_out(seed, 4) == 0 && spec_splitmix64_out(seed, 5) == 0
                && spec_splitmix64_out(seed, 6) == 0 && spec_splitmix64_out(seed, 7) == 0) ==>
                r.s0 == spec_splitmix64_out(0, 0) && r.s1 == spec_splitmix64_out(0, 1)
                && r.s2 == spec_splitmix64_out(0, 2) && r.s3 == spec_splitmix64_out(0, 3)
                && r.s4 == spec_splitmix64_out(0, 4) && r.s5 == spec_splitmix64_out(0, 5)
                && r.s6 == spec_splitmix64_out(0, 6) && r.s7 == spec_splitmix64_out(0, 7),
            r.s0 != 0 || r.s1 != 0 || r.s2 != 0 || r.s3 != 0 || r.s4 != 0 || r.s5 != 0
                || r.s6 != 0 || r.s7 != 0,
    {
        let w = expand_u64::<8>(seed);
        Self::new(w)
    }

    /// The first state word, after which the state advances.
    pub fn random_u64(&mut self) -> (r: u64)
        ensures
            r == old(self).s0,
            ({
                let n = spec_xoshiro512_next(
                    old(self).s0,
                    old(self).s1,
                    old(self).s2,
                    old(self).s3,
                    old(self).s4,
                    old(self).s5,
                    old(self).s6,
                    old(self).s7,
                );
                &&& final(self).s0 == n.0
                &&& final(self).s1 == n.1
                &&& final(self).s2 == n.2
                &&& final(self).s3 == n.3
                &&& final(self).s4 == n.4
                &&& final(self).s5 == n.5
                &&& final(self).s6 == n.6
                &&& final(self).s7 == n.7
            }),
    {
        let result = self.s0;
        let t = self.s0 << 11;
        self.s2 ^= self.s0;
        self.s5 ^= self.s1;
        self.s1 ^= self.s2;
        self.s7 ^= self.s3;
        self.s3 ^= self.s4;
        self.s4 ^= self.s5;
        self.s0 ^= self.s6;
        self.s6 ^= self.s7;
        self.s6 ^= t;
        self.s7 = rotl64(self.s7, 21);
        result
    }
}

impl Default for Xoshiro512 {
    /// The default stream starts from the seed-zero expansion.
    fn default() -> (r: Self)
        ensures
            r.s0 == spec_splitmix64_out(0, 0) && r.s1 == spec_splitmix64_out(0, 1)
                && r.s2 == spec_splitmix64_out(0, 2) && r.s3 == spec_splitmix64_out(0, 3)
                && r.s4 == spec_splitmix64_out(0, 4) && r.s5 == spec_splitmix64_out(0, 5)
                && r.s6 == spec_splitmix64_out(0, 6) && r.s7 == spec_splitmix64_out(0, 7),
    {
        proof {
            lemma_seed0_first_output();
        }
        Self::with(0)
    }
}

/// The eight-word 64-bit xoshiro with the additive output scrambler.
#[derive(Debug, PartialEq, Eq, Structural)]
pub struct Xoshiro512plus {
    pub s0: u64,
    pub s1: u64,
    pub s2: u64,
    pub s3: u64,
    pub s4: u64,
    pub s5: u64,
    pub s6: u64,
    pub s7: u64,
}

impl Xoshiro512plus {
    /// Starts from an explicit state vector; the all-zero vector is a
    /// fixed point of the advance, so it is repaired to the seed-zero
    /// expansion.
    pub fn new(state: [u64; 8]) -> (r: Self)
        ensures
            (state@[0] != 0 || state@[1] != 0 || state@[2] != 0 || state@[3] != 0
                || state@[4] != 0 || state@[5] != 0 || state@[6] != 0 || state@[7] != 0) ==>
                r.s0 == state@[0] && r.s1 == state@[1] && r.s2 == state@[2]
                && r.s3 == state@[3] && r.s4 == state@[4] && r.s5 == state@[5]
                && r.s6 == state@[6] && r.s7 == state@[7],
            (state@[0] == 0 && state@[1] == 0 && state@[2] == 0 && state@[3] == 0
                && state@[4] == 0 && state@[5] == 0 && state@[6] == 0 && state@[7] == 0) ==>
                r.s0 == spec_splitmix64_out(0, 0) && r.s1 == spec_splitmix64_out(0, 1)
                && r.s2 == spec_splitmix64_out(0, 2) && r.s3 == spec_splitmix64_out(0, 3)
                && r.s4 == spec_splitmix64_out(0, 4) && r.s5 == spec_splitmix64_out(0, 5)
                && r.s6 == spec_splitmix64_out(0, 6) && r.s7 == spec_splitmix64_out(0, 7),
            r.s0 != 0 || r.s1 != 0 || r.s2 != 0 || r.s3 != 0 || r.s4 != 0 || r.s5 != 0
                || r.s6 != 0 || r.s7 != 0,
    {
        if state[0] == 0 && state[1] == 0 && state[2] == 0 && state[3] == 0 && state[4] == 0
            && state[5] == 0 && state[6] == 0 && state[7] == 0 {
            proof {
                lemma_seed0_first_output();
            }
            let w = expand_u64::<8>(0);
            Xoshiro512plus {
                s0: w[0],
                s1: w[1],
                s2: w[2],
                s3: w[3],
                s4: w[4],
                s5: w[5],
                s6: w[6],
                s7: w[7],
            }
        } else {
            Xoshiro512plus {
                s0: state[0],
                s1: state[1],
                s2: state[2],
                s3: state[3],
                s4: state[4],
                s5: state[5],
                s6: state[6],
                s7: state[7],
            }
        }
    }

    /// Expands one seed word into the state vector.
    pub fn with(seed: u64) -> (r: Self)
        ensures
            (spec_splitmix64_out(seed, 0) != 0 || spec_splitmix64_out(seed, 1) != 0
                || spec_splitmix64_out(seed, 2) != 0 || spec_splitmix64_out(seed, 3) != 0
                || spec_splitmix64_out(seed, 4) != 0 || spec_splitmix64_out(seed, 5) != 0
                || spec_splitmix64_out(seed, 6) != 0 || spec_splitmix64_out(seed, 7) != 0) ==>
                r.s0 == spec_splitmix64_out(seed, 0) && r.s1 == spec_splitmix64_out(seed, 1)
                && r.s2 == spec_splitmix64_out(seed, 2)
                && r.s3 == spec_splitmix64_out(seed, 3)
                && r.s4 == spec_splitmix64_out(seed, 4)
                && r.s5 == spec_splitmix64_out(seed, 5)
                && r.s6 == spec_splitmix64_out(seed, 6)
                && r.s7 == spec_splitmix64_out(seed, 7),
            (spec_splitmix64_out(seed, 0) == 0 && spec_splitmix64_out(seed, 1) == 0
                && spec_splitmix64_out(seed, 2) == 0 && spec_splitmix64_out(seed, 3) == 0
                && spec_splitmix64_out(seed, 4) == 0 && spec_splitmix64_out(seed, 5) == 0
                && spec_splitmix64_out(seed, 6) == 0 && spec_splitmix64_out(seed, 7) == 0) ==>
                r.s0 == spec_splitmix64_out(0, 0) && r.s1 == spec_splitmix64_out(0, 1)
                && r.s2 == spec_splitmix64_out(0, 2) && r.s3 == spec_splitmix64_out(0, 3)
                && r.s4 == spec_splitmix64_out(0, 4) && r.s5 == spec_splitmix64_out(0, 5)
                && r.s6 == spec_splitmix64_out(0, 6) && r.s7 == spec_splitmix64_out(0, 7),
            r.s0 != 0 || r.s1 != 0 || r.s2 != 0 || r.s3 != 0 || r.s4 != 0 || r.s5 != 0
                || r.s6 != 0 || r.s7 != 0,
    {
        let w = expand_u64::<8>(seed);
        Self::new(w)
    }

    /// The sum of the first and fourth state words, after which the state
    /// advances.
    pub fn random_u64(&mut self) -> (r: u64)
        ensures
            r == wadd64(old(self).s0, old(self).s3),
            ({
                let n = spec_xoshiro512_next(
                    old(self).s0,
                    old(self).s1,
                    old(self).s2,
                    old(self).s3,
                    old(self).s4,
                    old(self).s5,
                    old(self).s6,
                    old(self).s7,
                );
                &&& final(self).s0 == n.0
                &&& final(self).s1 == n.1
                &&& final(self).s2 == n.2
                &&& final(self).s3 == n.3
                &&& final(self).s4 == n.4
                &&& final(self).s5 == n.5
                &&& final(self).s6 == n.6
                &&& final(self).s7 == n.7
            }),
    {
        let result = self.s0.wrapping_add(self.s3);
        let t = self.s0 << 11;
        self.s2 ^= self.s0;
        self.s5 ^= self.s1;
        self.s1 ^= self.s2;
        self.s7 ^= self.s3;
        self.s3 ^= self.s4;
        self.s4 ^= self.s5;
        self.s0 ^= self.s6;
        self.s6 ^= self.s7;
        self.s6 ^= t;
        self.s7 = rotl64(self.s7, 21);
        result
    }
}

impl Default for Xoshiro512plus {
    /// The default stream starts from the seed-zero expansion.
    fn default() -> (r: Self)
        ensures
            r.s0 == spec_splitmix64_out(0, 0) && r.s1 == spec_splitmix64_out(0, 1)
                && r.s2 == spec_splitmix64_out(0, 2) && r.s3 == spec_splitmix64_out(0, 3)
                && r.s4 == spec_splitmix64_out(0, 4) && r.s5 == spec_splitmix64_out(0, 5)
                && r.s6 == spec_splitmix64_out(0, 6) && r.s7 == spec_splitmix64_out(0, 7),
    {
        proof {
            lemma_seed0_first_output();
        }
        Self::with(0)
    }
}

/// The eight-word 64-bit xoshiro with the add-rotate-add output scrambler.
#[derive(Debug, PartialEq, Eq, Structural)]
pub struct Xoshiro512plusplus {
    pub s0: u64,
    pub s1: u64,
    pub s2: u64,
    pub s3: u64,
    pub s4: u64,
    pub s5: u64,
    pub s6: u64,
    pub s7: u64,
}

impl Xoshiro512plusplus {
    /// Starts from an explicit state vector; the all-zero vector is a
    /// fixed point of the advance, so it is repaired to the seed-zero
    /// expansion.
    pub fn new(state: [u64; 8]) -> (r: Self)
        ensures
            (state@[0] != 0 || state@[1] != 0 || state@[2] != 0 || state@[3] != 0
                || state@[4] != 0 || state@[5] != 0 || state@[6] != 0 || state@[7] != 0) ==>
                r.s0 == state@[0] && r.s1 == state@[1] && r.s2 == state@[2]
                && r.s3 == state@[3] && r.s4 == state@[4] && r.s5 == state@[5]
                && r.s6 == state@[6] && r.s7 == state@[7],
            (state@[0] == 0 && state@[1] == 0 && state@[2] == 0 && state@[3] == 0
                && state@[4] == 0 && state@[5] == 0 && state@[6] == 0 && state@[7] == 0) ==>
                r.s0 == spec_splitmix64_out(0, 0) && r.s1 == spec_splitmix64_out(0, 1)
                && r.s2 == spec_splitmix64_out(0, 2) && r.s3 == spec_splitmix64_out(0, 3)
                && r.s4 == spec_splitmix64_out(0, 4) && r.s5 == spec_splitmix64_out(0, 5)
                && r.s6 == spec_splitmix64_out(0, 6) && r.s7 == spec_splitmix64_out(0, 7),
            r.s0 != 0 || r.s1 != 0 || r.s2 != 0 || r.s3 != 0 || r.s4 != 0 || r.s5 != 0
                || r.s6 != 0 || r.s7 != 0,
    {
        if state[0] == 0 && state[1] == 0 && state[2] == 0 && state[3] == 0 && state[4] == 0
            && state[5] == 0 && state[6] == 0 && state[7] == 0 {
            proof {
                lemma_seed0_first_output();
            }
            let w = expand_u64::<8>(0);
            Xoshiro512plusplus {
                s0: w[0],
                s1: w[1],
                s2: w[2],
                s3: w[3],
                s4: w[4],
                s5: w[5],
                s6: w[6],
                s7: w[7],
            }
        } else {
            Xoshiro512plusplus {
                s0: state[0],
                s1: state[1],
                s2: state[2],
                s3: state[3],
                s4: state[4],
                s5: state[5],
                s6: state[6],
                s7: state[7],
            }
        }
    }

    /// Expands one seed word into the state vector.
    pub fn with(seed: u64) -> (r: Self)
        ensures
            (spec_splitmix64_out(seed, 0) != 0 || spec_splitmix64_out(seed, 1) != 0
                || spec_splitmix64_out(seed, 2) != 0 || spec_splitmix64_out(seed, 3) != 0
                || spec_splitmix64_out(seed, 4) != 0 || spec_splitmix64_out(seed, 5) != 0
                || spec_splitmix64_out(seed, 6) != 0 || spec_splitmix64_out(seed, 7) != 0) ==>
                r.s0 == spec_splitmix64_out(seed, 0) && r.s1 == spec_splitmix64_out(seed, 1)
                && r.s2 == spec_splitmix64_out(seed, 2)
                && r.s3 == spec_splitmix64_out(seed, 3)
                && r.s4 == spec_splitmix64_out(seed, 4)
                && r.s5 == spec_splitmix64_out(seed, 5)
                && r.s6 == spec_splitmix64_out(seed, 6)
                && r.s7 == spec_splitmix64_out(seed, 7),
            (spec_splitmix64_out(seed, 0) == 0 && spec_splitmix64_out(seed, 1) == 0
                && spec_splitmix64_out(seed, 2) == 0 && spec_splitmix64_out(seed, 3) == 0
                && spec_splitmix64_out(seed, 4) == 0 && spec_splitmix64_out(seed, 5) == 0
                && spec_splitmix64_out(seed, 6) == 0 && spec_splitmix64_out(seed, 7) == 0) ==>
                r.s0 == spec_splitmix64_out(0, 0) && r.s1 == spec_splitmix64_out(0, 1)
                && r.s2 == spec_splitmix64_out(0, 2) && r.s3 == spec_splitmix64_out(0, 3)
                && r.s4 == spec_splitmix64_out(0, 4) && r.s5 == spec_splitmix64_out(0, 5)
                && r.s6 == spec_splitmix64_out(0, 6) && r.s7 == spec_splitmix64_out(0, 7),
            r.s0 != 0 || r.s1 != 0 || r.s2 != 0 || r.s3 != 0 || r.s4 != 0 || r.s5 != 0
                || r.s6 != 0 || r.s7 != 0,
    {
        let w = expand_u64::<8>(seed);
        Self::new(w)
    }

    /// The rotated sum re-added to the first word, after which the state
    /// advances.
    pub fn random_u64(&mut self) -> (r: u64)
        ensures
            r == wadd64(spec_rotl64(wadd64(old(self).s0, old(self).s3), 17), old(self).s0),
            ({
                let n = spec_xoshiro512_next(
                    old(self).s0,
                    old(self).s1,
                    old(self).s2,
                    old(self).s3,
                    old(self).s4,
                    old(self).s5,
                    old(self).s6,
                    old(self).s7,
                );
                &&& final(self).s0 == n.0
                &&& final(self).s1 == n.1
                &&& final(self).s2 == n.2
                &&& final(self).s3 == n.3
                &&& final(self).s4 == n.4
                &&& final(self).s5 == n.5
                &&& final(self).s6 == n.6
                &&& final(self).s7 == n.7
            }),
    {
        let result = rotl64(self.s0.wrapping_add(self.s3), 17).wrapping_add(self.s0);
        let t = self.s0 << 11;
        self.s2 ^= self.s0;
        self.s5 ^= self.s1;
        self.s1 ^= self.s2;
        self.s7 ^= self.s3;
        self.s3 ^= self.s4;
        self.s4 ^= self.s5;
        self.s0 ^= self.s6;
        self.s6 ^= self.s7;
        self.s6 ^= t;
        self.s7 = rotl64(self.s7, 21);
        result
    }
}

impl Default for Xoshiro512plusplus {
    /// The default stream starts from the seed-zero expansion.
    fn default() -> (r: Self)
        ensures
            r.s0 == spec_splitmix64_out(0, 0) && r.s1 == spec_splitmix64_out(0, 1)
                && r.s2 == spec_splitmix64_out(0, 2) && r.s3 == spec_splitmix64_out(0, 3)
                && r.s4 == spec_splitmix64_out(0, 4) && r.s5 == spec_splitmix64_out(0, 5)
                && r.s6 == spec_splitmix64_out(0, 6) && r.s7 == spec_splitmix64_out(0, 7),
    {
        proof {
            lemma_seed0_first_output();
        }
        Self::with(0)
    }
}

/// The eight-word 64-bit xoshiro with the multiply-rotate-multiply output
/// scrambler.
#[derive(Debug, PartialEq, Eq, Structural)]
pub struct Xoshiro512starstar {
    pub s0: u64,
    pub s1: u64,
    pub s2: u64,
    pub s3: u64,
    pub s4: u64,
    pub s5: u64,
    pub s6: u64,
    pub s7: u64,
}

impl Xoshiro512starstar {
    /// Starts from an explicit state vector; the all-zero vector is a
    /// fixed point of the advance, so it is repaired to the seed-zero
    /// expansion.
    pub fn new(state: [u64; 8]) -> (r: Self)
        ensures
            (state@[0] != 0 || state@[1] != 0 || state@[2] != 0 || state@[3] != 0
                || state@[4] != 0 || state@[5] != 0 || state@[6] != 0 || state@[7] != 0) ==>
                r.s0 == state@[0] && r.s1 == state@[1] && r.s2 == state@[2]
                && r.s3 == state@[3] && r.s4 == state@[4] && r.s5 == state@[5]
                && r.s6 == state@[6] && r.s7 == state@[7],
            (state@[0] == 0 && state@[1] == 0 && state@[2] == 0 && state@[3] == 0
                && state@[4] == 0 && state@[5] == 0 && state@[6] == 0 && state@[7] == 0) ==>
                r.s0 == spec_splitmix64_out(0, 0) && r.s1 == spec_splitmix64_out(0, 1)
                && r.s2 == spec_splitmix64_out(0, 2) && r.s3 == spec_splitmix64_out(0, 3)
                && r.s4 == spec_splitmix64_out(0, 4) && r.s5 == spec_splitmix64_out(0, 5)
                && r.s6 == spec_splitmix64_out(0, 6) && r.s7 == spec_splitmix64_out(0, 7),
            r.s0 != 0 || r.s1 != 0 || r.s2 != 0 || r.s3 != 0 || r.s4 != 0 || r.s5 != 0
                || r.s6 != 0 || r.s7 != 0,
    {
        if state[0] == 0 && state[1] == 0 && state[2] == 0 && state[3] == 0 && state[4] == 0
            && state[5] == 0 && state[6] == 0 && state[7] == 0 {
            proof {
                lemma_seed0_first_output();
            }
            let w = expand_u64::<8>(0);
            Xoshiro512starstar {
                s0: w[0],
                s1: w[1],
                s2: w[2],
                s3: w[3],
                s4: w[4],
                s5: w[5],
                s6: w[6],
                s7: w[7],
            }
        } else {
            Xoshiro512starstar {
                s0: state[0],
                s1: state[1],
                s2: state[2],
                s3: state[3],
                s4: state[4],
                s5: state[5],
                s6: state[6],
                s7: state[7],
            }
        }
    }

    /// Expands one seed word into the state vector.
    pub fn with(seed: u64) -> (r: Self)
        ensures
            (spec_splitmix64_out(seed, 0) != 0 || spec_splitmix64_out(seed, 1) != 0
                || spec_splitmix64_out(seed, 2) != 0 || spec_splitmix64_out(seed, 3) != 0
                || spec_splitmix64_out(seed, 4) != 0 || spec_splitmix64_out(seed, 5) != 0
                || spec_splitmix64_out(seed, 6) != 0 || spec_splitmix64_out(seed, 7) != 0) ==>
                r.s0 == spec_splitmix64_out(seed, 0) && r.s1 == spec_splitmix64_out(seed, 1)
                && r.s2 == spec_splitmix64_out(seed, 2)
                && r.s3 == spec_splitmix64_out(seed, 3)
                && r.s4 == spec_splitmix64_out(seed, 4)
                && r.s5 == spec_splitmix64_out(seed, 5)
                && r.s6 == spec_splitmix64_out(seed, 6)
                && r.s7 == spec_splitmix64_out(seed, 7),
            (spec_splitmix64_out(seed, 0) == 0 && spec_splitmix64_out(seed, 1) == 0
                && spec_splitmix64_out(seed, 2) == 0 && spec_splitmix64_out(seed, 3) == 0
                && spec_splitmix64_out(seed, 4) == 0 && spec_splitmix64_out(seed, 5) == 0
                && spec_splitmix64_out(seed, 6) == 0 && spec_splitmix64_out(seed, 7) == 0) ==>
                r.s0 == spec_splitmix64_out(0, 0) && r.s1 == spec_splitmix64_out(0, 1)
                && r.s2 == spec_splitmix64_out(0, 2) && r.s3 == spec_splitmix64_out(0, 3)
                && r.s4 == spec_splitmix64_out(0, 4) && r.s5 == spec_splitmix64_out(0, 5)
                && r.s6 == spec_splitmix64_out(0, 6) && r.s7 == spec_splitmix64_out(0, 7),
            r.s0 != 0 || r.s1 != 0 || r.s2 != 0 || r.s3 != 0 || r.s4 != 0 || r.s5 != 0
                || r.s6 != 0 || r.s7 != 0,
    {
        let w = expand_u64::<8>(seed);
        Self::new(w)
    }

    /// The scrambled second state word, after which the state advances.
    pub fn random_u64(&mut self) -> (r: u64)
        ensures
            r == wmul64(spec_rotl64(wmul64(old(self).s1, 5), 7), 9),
            ({
                let n = spec_xoshiro512_next(
                    old(self).s0,
                    old(self).s1,
                    old(self).s2,
                    old(self).s3,
                    old(self).s4,
                    old(self).s5,
                    old(self).s6,
                    old(self).s7,
                );
                &&& final(self).s0 == n.0
                &&& final(self).s1 == n.1
                &&& final(self).s2 == n.2
                &&& final(self).s3 == n.3
                &&& final(self).s4 == n.4
                &&& final(self).s5 == n.5
                &&& final(self).s6 == n.6
                &&& final(self).s7 == n.7
            }),
    {
        let result = rotl64(self.s1.wrapping_mul(5), 7).wrapping_mul(9);
        let t = self.s0 << 11;
        self.s2 ^= self.s0;
        self.s5 ^= self.s1;
        self.s1 ^= self.s2;
        self.s7 ^= self.s3;
        self.s3 ^= self.s4;
        self.s4 ^= self.s5;
        self.s0 ^= self.s6;
        self.s6 ^= self.s7;
        self.s6 ^= t;
        self.s7 = rotl64(self.s7, 21);
        result
    }
}

impl Default for Xoshiro512starstar {
    /// The default stream starts from the seed-zero expansion.
    fn default() -> (r: Self)
        ensures
            r.s0 == spec_splitmix64_out(0, 0) && r.s1 == spec_splitmix64_out(0, 1)
                && r.s2 == spec_splitmix64_out(0, 2) && r.s3 == spec_splitmix64_out(0, 3)
                && r.s4 == spec_splitmix64_out(0, 4) && r.s5 == spec_splitmix64_out(0, 5)
                && r.s6 == spec_splitmix64_out(0, 6) && r.s7 == spec_splitmix64_out(0, 7),
    {
        proof {
            lemma_seed0_first_output();
        }
        Self::with(0)
    }
}

} // verus!
