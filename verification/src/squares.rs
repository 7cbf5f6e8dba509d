//! The Squares counter-based generator.
//!
//! State is a monotonically incremented 64-bit counter and a non-zero
//! 64-bit key; the output folds five squaring rounds of `counter * key`.
//! No output feeds back into the state, so independent streams come from
//! partitioning the counter or key space.

use vstd::prelude::*;
use crate::scramble::{rotl64, spec_rotl64, wadd64, wmul64};
use crate::splitmix::{SplitMix64, Splitmix, spec_splitmix64_out};
use crate::util::spec_u64_high;

verus! {

/// The documented default key, substituted whenever a caller supplies zero.
pub const DEFAULT_SPLITMIX_KEY: u64 = 0x548c9decbce65297;

/// One squaring round: square the running value, add the offset, rotate
/// left by half the width.
pub open spec fn spec_squares_round(x: u64, w: u64) -> u64 {
    spec_rotl64(wadd64(wmul64(x, x), w), 32)
}

/// The running value after the four squaring rounds for one counter/key pair.
pub open spec fn spec_squares_x4(ctr: u64, key: u64) -> u64 {
    let y = wmul64(ctr, key);
    let z = wadd64(y, key);
    let x1 = spec_squares_round(y, y);
    let x2 = spec_squares_round(x1, z);
    let x3 = spec_squares_round(x2, y);
    spec_squares_round(x3, z)
}

/// The 64-bit output: a final rotation xor-folded with the high half of a
/// fifth squaring.
pub open spec fn spec_squares_out64(ctr: u64, key: u64) -> u64 {
    let y = wmul64(ctr, key);
    let x = spec_squares_x4(ctr, key);
    spec_rotl64(x, 32) ^ (wadd64(wmul64(x, x), y) >> 32)
}

/// The 32-bit output: the top half after the final rotation.
pub open spec fn spec_squares_out32(ctr: u64, key: u64) -> u32 {
    (spec_rotl64(spec_squares_x4(ctr, key), 32) >> 32) as u32
}

/// Generates the 64-bit output for one counter/key pair.
pub fn random_u64(ctr: u64, key: u64) -> (r: u64)
    ensures
        r == spec_squares_out64(ctr, key),
{
    let mut x = ctr.wrapping_mul(key);
    let y = x;
    let z = y.wrapping_add(key);

    x = rotl64(x.wrapping_mul(x).wrapping_add(y), 32);
    x = rotl64(x.wrapping_mul(x).wrapping_add(z), 32);
    x = rotl64(x.wrapping_mul(x).wrapping_add(y), 32);
    x = rotl64(x.wrapping_mul(x).wrapping_add(z), 32);

    rotl64(x, 32) ^ (x.wrapping_mul(x).wrapping_add(y) >> 32)
}

/// A Squares generator: a counter and a key.
#[derive(Debug, PartialEq, Eq, Structural)]
pub struct Squares {
    pub ctr: u64,
    pub key: u64,
}

impl Squares {
    /// Starts a stream at an explicit counter and key; a zero key is
    /// repaired to the documented default key.
    pub fn with(ctr: u64, key: u64) -> (r: Self)
        ensures
            r.ctr == ctr,
            r.key == if key == 0 { DEFAULT_SPLITMIX_KEY } else { key },
            r.key != 0,
    {
        let key = if key == 0 { DEFAULT_SPLITMIX_KEY } else { key };
        Squares { ctr, key }
    }

    /// Starts a stream at an explicit counter and key; a zero key falls
    /// back to the whole seed-zero expansion, counter included.
    pub fn new(ctr: u64, key: u64) -> (r: Self)
        ensures
            key != 0 ==> r.ctr == ctr && r.key == key,
            key == 0 ==> r.ctr == 0 && r.key == spec_splitmix64_out(0, 0),
    {
        if key != 0 {
            Self { ctr, key }
        } else {
            Self::with_seed(0)
        }
    }

    /// Expands one seed word into a key; the counter starts at zero.
    pub fn with_seed(seed: u64) -> (r: Self)
        ensures
            r.ctr == 0,
            r.key == spec_splitmix64_out(seed, 0),
    {
        let mut rng = SplitMix64::with(seed);
        let key = rng.random_u64();
        Self { ctr: 0, key }
    }

    /// Moves this generator onto another stream by replacing the key.
    pub fn set_stream(&mut self, stream: u64)
        ensures
            final(self).ctr == old(self).ctr,
            final(self).key == stream,
    {
        self.key = stream
    }

    /// The next raw 64-bit value; the counter moves up by one.
    pub fn random_u64(&mut self) -> (r: u64)
        requires
            old(self).ctr < u64::MAX,
        ensures
            final(self).ctr == old(self).ctr + 1,
            final(self).key == old(self).key,
            r == spec_squares_out64(old(self).ctr, old(self).key),
    {
        let result = random_u64(self.ctr, self.key);
        self.ctr = self.ctr + 1;
        result
    }

    /// The next 64-bit output as a plain word.
    pub fn random(&mut self) -> (r: u64)
        requires
            old(self).ctr < u64::MAX,
        ensures
            final(self).ctr == old(self).ctr + 1,
            final(self).key == old(self).key,
            r == spec_squares_out64(old(self).ctr, old(self).key),
    {
        self.random_u64()
    }

    /// The next 32-bit output: the high half of the last rotation, equal to
    /// the high 32 bits of the 64-bit output for the same counter.
    pub fn random_u32(&mut self) -> (r: u32)
        requires
            old(self).ctr < u64::MAX,
        ensures
            final(self).ctr == old(self).ctr + 1,
            final(self).key == old(self).key,
            r == spec_squares_out32(old(self).ctr, old(self).key),
    {
        let mut x = self.ctr.wrapping_mul(self.key);
        let y = x;
        let z = y.wrapping_add(self.key);

        x = rotl64(x.wrapping_mul(x).wrapping_add(y), 32);
        x = rotl64(x.wrapping_mul(x).wrapping_add(z), 32);
        x = rotl64(x.wrapping_mul(x).wrapping_add(y), 32);
        x = rotl64(x.wrapping_mul(x).wrapping_add(z), 32);
        self.ctr = self.ctr + 1;

        (rotl64(x, 32) >> 32) as u32
    }
}

impl Default for Squares {
    /// The default stream keys itself from the seed-zero expansion.
    fn default() -> (r: Self)
        ensures
            r.ctr == 0,
            r.key == spec_splitmix64_out(0, 0),
    {
        let key: u64 = Splitmix::default().random();
        Self { ctr: 0, key }
    }
}

/// The 32-bit outputs of the Squares generator are the high 32 bits of the
/// 64-bit outputs for the same counter and key.
pub proof fn lemma_squares_u32_is_high_of_u64(ctr: u64, key: u64)
    ensures
        spec_squares_out32(ctr, key) == spec_u64_high(spec_squares_out64(ctr, key)),
{
    let y = wmul64(ctr, key);
    let x = spec_squares_x4(ctr, key);
    let a = spec_rotl64(x, 32);
    let b = wadd64(wmul64(x, x), y);
    assert(((a ^ (b >> 32)) >> 32) as u32 == (a >> 32) as u32) by (bit_vector);
}

} // verus!
