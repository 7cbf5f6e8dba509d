//! The splitmix seed expanders.
//!
//! A splitmix generator walks its state by a fixed odd "golden ratio"
//! increment and feeds the new state through an avalanche finalizer.  It
//! handles a zero seed well, so the other generators use it to expand one
//! small seed into their wider state vectors.

use vstd::prelude::*;
use crate::bitmixer::{bitmix64s, spec_bitmix64s, spec_mix32};
use crate::raw::r64;
use crate::scramble::{wadd32, wadd64};
use crate::util::spec_u64_high;

verus! {

/// The odd golden-ratio increment for the 64-bit state walk.
pub const GOLDEN_RATIO_64: u64 = 0x9e3779b97f4a7c15;

/// The golden-ratio increment for the 32-bit state walk.
pub const GOLDEN_RATIO_32: u32 = 0x9e3779b9;

/// The 32-bit splitmix finalizer (its second multiplier differs from the
/// canonical 32-bit bitmixer).
pub open spec fn spec_splitmix32_mix(z: u32) -> u32 {
    spec_mix32(z, 16, 0x21f0aaad, 15, 0x735a2d97, 15)
}

/// One output of the 64-bit splitmix walk started at `state`: the state
/// after `n + 1` increments, finalized.
pub open spec fn spec_splitmix64_out(state: u64, n: nat) -> u64
    decreases n,
{
    if n == 0 {
        spec_bitmix64s(wadd64(state, GOLDEN_RATIO_64))
    } else {
        spec_splitmix64_out(wadd64(state, GOLDEN_RATIO_64), (n - 1) as nat)
    }
}

/// The state of the 64-bit splitmix walk after `n` increments.
pub open spec fn spec_splitmix64_walk(state: u64, n: nat) -> u64
    decreases n,
{
    if n == 0 {
        state
    } else {
        wadd64(spec_splitmix64_walk(state, (n - 1) as nat), GOLDEN_RATIO_64)
    }
}

/// Walking one increment ahead commutes with starting one increment later.
pub proof fn lemma_splitmix64_walk_shift(state: u64, n: nat)
    ensures
        spec_splitmix64_walk(wadd64(state, GOLDEN_RATIO_64), n) == spec_splitmix64_walk(
            state,
            n + 1,
        ),
    decreases n,
{
    if n == 0 {
        assert(spec_splitmix64_walk(state, 1) == wadd64(spec_splitmix64_walk(state, 0), GOLDEN_RATIO_64));
    } else {
        lemma_splitmix64_walk_shift(state, (n - 1) as nat);
        assert(spec_splitmix64_walk(wadd64(state, GOLDEN_RATIO_64), n) == wadd64(
            spec_splitmix64_walk(wadd64(state, GOLDEN_RATIO_64), (n - 1) as nat),
            GOLDEN_RATIO_64,
        ));
        assert(spec_splitmix64_walk(state, n + 1) == wadd64(
            spec_splitmix64_walk(state, n),
            GOLDEN_RATIO_64,
        ));
    }
}

/// The `n`-th output is the finalizer applied to the walk's `n + 1`-th state.
pub proof fn lemma_splitmix64_out_at(state: u64, n: nat)
    ensures
        spec_splitmix64_out(state, n) == spec_bitmix64s(
            wadd64(spec_splitmix64_walk(state, n), GOLDEN_RATIO_64),
        ),
    decreases n,
{
    if n > 0 {
        lemma_splitmix64_out_at(wadd64(state, GOLDEN_RATIO_64), (n - 1) as nat);
        lemma_splitmix64_walk_shift(state, (n - 1) as nat);
    }
}

/// The first two outputs of the seed-zero walk, as known constants: they
/// and their high halves are non-zero, so a zero seed never yields a zero
/// output on its first two calls, and every expansion that starts with
/// them escapes the degenerate all-zero state.
pub proof fn lemma_seed0_first_output()
    ensures
        spec_splitmix64_out(0, 0) == 0xe220a8397b1dcdafu64,
        spec_splitmix64_out(0, 1) == 0x6e789e6aa1b965f4u64,
        spec_u64_high(spec_splitmix64_out(0, 0)) == 0xe220a839u32,
{
    assert(spec_bitmix64s(wadd64(0, GOLDEN_RATIO_64)) == 0xe220a8397b1dcdafu64) by (bit_vector);
    assert(spec_splitmix64_out(0, 1) == spec_splitmix64_out(wadd64(0, GOLDEN_RATIO_64), 0));
    assert(spec_splitmix64_out(wadd64(0, GOLDEN_RATIO_64), 0) == spec_bitmix64s(
        wadd64(wadd64(0, GOLDEN_RATIO_64), GOLDEN_RATIO_64),
    ));
    assert(spec_bitmix64s(wadd64(wadd64(0, GOLDEN_RATIO_64), GOLDEN_RATIO_64))
        == 0x6e789e6aa1b965f4u64) by (bit_vector);
    assert((0xe220a8397b1dcdafu64 >> 32) as u32 == 0xe220a839u32) by (bit_vector);
}

/// The splitmix avalanche over a 64-bit word (the splittable bitmixer).
pub fn splitmix(state: u64) -> (r: u64)
    ensures
        r == spec_bitmix64s(state),
{
    bitmix64s(state)
}

/// A 64-bit splitmix generator producing raw [`r64`] values.
#[derive(Debug, PartialEq, Eq, Structural)]
pub struct Splitmix {
    pub state: u64,
}

impl Splitmix {
    /// Starts the walk at an arbitrary state; zero is a fine seed.
    pub fn new(state: u64) -> (r: Self)
        ensures
            r.state == state,
    {
        Self { state }
    }

    /// Steps the state by the golden-ratio increment and finalizes it.
    pub fn random_u64(&mut self) -> (r: r64)
        ensures
            final(self).state == wadd64(old(self).state, GOLDEN_RATIO_64),
            r.0 == spec_bitmix64s(final(self).state),
    {
        self.state = self.state.wrapping_add(GOLDEN_RATIO_64);
        let z = splitmix(self.state);
        r64::from(z)
    }

    /// The next raw value as a plain 64-bit word.
    pub fn random(&mut self) -> (r: u64)
        ensures
            final(self).state == wadd64(old(self).state, GOLDEN_RATIO_64),
            r == spec_bitmix64s(final(self).state),
    {
        let v = self.random_u64();
        u64::from(v)
    }
}

impl Default for Splitmix {
    /// The default walk starts at zero.
    fn default() -> (r: Self)
        ensures
            r.state == 0,
    {
        Self::new(0)
    }
}

/// The 64-bit splitmix generator recommended for seeding other generators.
#[derive(Debug, PartialEq, Eq, Structural)]
pub struct SplitMix64 {
    pub state: u64,
}

impl SplitMix64 {
    /// Starts the walk at `state`; zero is a fine seed.
    pub fn with(state: u64) -> (r: Self)
        ensures
            r.state == state,
    {
        SplitMix64 { state }
    }

    /// Steps the state by the golden-ratio increment and finalizes it.
    pub fn random_u64(&mut self) -> (r: u64)
        ensures
            final(self).state == wadd64(old(self).state, GOLDEN_RATIO_64),
            r == spec_bitmix64s(final(self).state),
    {
        self.state = self.state.wrapping_add(GOLDEN_RATIO_64);
        splitmix(self.state)
    }

    /// A 32-bit output: the high half of the next 64-bit output.
    pub fn random_u32(&mut self) -> (r: u32)
        ensures
            final(self).state == wadd64(old(self).state, GOLDEN_RATIO_64),
            r == spec_u64_high(spec_bitmix64s(final(self).state)),
    {
        let v = self.random_u64();
        (v >> 32) as u32
    }
}

/// The 32-bit splitmix generator.
#[derive(Debug, PartialEq, Eq, Structural)]
pub struct SplitMix32 {
    pub state: u32,
}

impl SplitMix32 {
    /// Seeds from the low 32 bits of a seed word.
    pub fn with_seed(seed: u64) -> (r: Self)
        ensures
            r.state == seed as u32,
    {
        let seed = seed as u32;
        Self { state: seed }
    }

    /// Steps the state by the 32-bit golden-ratio increment and finalizes it.
    pub fn random_u32(&mut self) -> (r: u32)
        ensures
            final(self).state == wadd32(old(self).state, GOLDEN_RATIO_32),
            r == spec_splitmix32_mix(final(self).state),
    {
        self.state = self.state.wrapping_add(GOLDEN_RATIO_32);
        let mut x = self.state;
        x ^= x >> 16;
        x = x.wrapping_mul(0x21f0aaad);
        x ^= x >> 15;
        x = x.wrapping_mul(0x735a2d97);
        x ^= x >> 15;
        x
    }

    /// A 64-bit output: two successive 32-bit outputs, high half first.
    pub fn random_u64(&mut self) -> (r: u64)
        ensures
            final(self).state == wadd32(wadd32(old(self).state, GOLDEN_RATIO_32), GOLDEN_RATIO_32),
            r == ((spec_splitmix32_mix(wadd32(old(self).state, GOLDEN_RATIO_32)) as u64) << 32)
                | (spec_splitmix32_mix(final(self).state) as u64),
    {
        let high = self.random_u32();
        let low = self.random_u32();
        ((high as u64) << 32) | (low as u64)
    }
}

/// A 32-bit state word drawn from the seed expansion: the high half of
/// the `n`-th output of the 64-bit walk.
pub open spec fn spec_expanded32(seed: u64, n: nat) -> u32 {
    spec_u64_high(spec_splitmix64_out(seed, n))
}

/// Expands one seed into `N` 64-bit state words: the successive outputs of
/// the 64-bit splitmix walk.
pub fn expand_u64<const N: usize>(seed: u64) -> (w: [u64; N])
    ensures
        forall|j: int| 0 <= j < N ==> w@[j] == spec_splitmix64_out(seed, j as nat),
{
    let mut rng = SplitMix64::with(seed);
    let mut w = vstd::array::array_fill_for_copy_types::<u64, N>(0);
    let mut i: usize = 0;
    while i < N
        invariant
            i <= N,
            rng.state == spec_splitmix64_walk(seed, i as nat),
            forall|j: int| 0 <= j < i ==> w@[j] == spec_splitmix64_out(seed, j as nat),
        decreases N - i,
    {
        let word = rng.random_u64();
        proof {
            lemma_splitmix64_out_at(seed, i as nat);
            assert(spec_splitmix64_walk(seed, i as nat + 1) == wadd64(
                spec_splitmix64_walk(seed, i as nat),
                GOLDEN_RATIO_64,
            ));
        }
        w[i] = word;
        i += 1;
    }
    w
}

/// Expands one seed into `N` 32-bit state words: the high halves of the
/// successive outputs of the 64-bit splitmix walk.
pub fn expand_u32<const N: usize>(seed: u64) -> (w: [u32; N])
    ensures
        forall|j: int|
            0 <= j < N ==> w@[j] == spec_u64_high(spec_splitmix64_out(seed, j as nat)),
{
    let mut rng = SplitMix64::with(seed);
    let mut w = vstd::array::array_fill_for_copy_types::<u32, N>(0);
    let mut i: usize = 0;
    while i < N
        invariant
            i <= N,
            rng.state == spec_splitmix64_walk(seed, i as nat),
            forall|j: int|
                0 <= j < i ==> w@[j] == spec_u64_high(spec_splitmix64_out(seed, j as nat)),
        decreases N - i,
    {
        let word = rng.random_u32();
        proof {
            lemma_splitmix64_out_at(seed, i as nat);
            assert(spec_splitmix64_walk(seed, i as nat + 1) == wadd64(
                spec_splitmix64_walk(seed, i as nat),
                GOLDEN_RATIO_64,
            ));
        }
        w[i] = word;
        i += 1;
    }
    w
}

} // verus!
