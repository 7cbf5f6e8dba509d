//! The PCG32 generator: a 64-bit linear congruential step with the
//! "XSH-RR" output permutation, yielding 32-bit values.

use vstd::prelude::*;
use crate::scramble::{wadd64, wmul64};
use crate::splitmix::{SplitMix64, spec_splitmix64_out};
use crate::util::{u64_to_u32_high, u64_to_u32_low, spec_u64_high, spec_u64_low};

verus! {

/// Default state of a freshly built generator.
pub const PCG32_DEFAULT_STATE: u64 = 0x853c49e6748fea9b;

/// Default (odd) increment of a freshly built generator.
pub const PCG32_DEFAULT_SEQ: u64 = 0xda3e39cb94b95bdb;

/// The linear congruential multiplier.
pub const PCG32_MUL: u64 = 0x5851f42d4c957f2d;

/// A PCG32 generator: 64 bits of state and an odd stream increment.
#[derive(Debug, PartialEq, Eq, Structural)]
pub struct PCG32 {
    pub state: u64,
    pub seq: u64,
}

/// The state after one linear congruential step.
pub open spec fn spec_pcg32_advance(state: u64, seq: u64) -> u64 {
    wadd64(wmul64(state, PCG32_MUL), seq)
}

/// The 32-bit output drawn from a state: xor-shift it down to 32 bits and
/// rotate right by the state's top five bits.
pub open spec fn spec_pcg32_output(state: u64) -> u32 {
    let xorshifted = (((state >> 18) ^ state) >> 27) as u32;
    let rot = (state >> 59) as u32;
    let nrot = vstd::wrapping::u32_specs::wrapping_sub(0, rot);
    (xorshifted >> rot) | (xorshifted << (nrot & 31))
}

/// The state after `n` linear congruential steps.
pub open spec fn spec_pcg32_nth_state(state: u64, seq: u64, n: nat) -> u64
    decreases n,
{
    if n == 0 {
        state
    } else {
        spec_pcg32_advance(spec_pcg32_nth_state(state, seq, (n - 1) as nat), seq)
    }
}

/// The `n`-th output of the stream started at `state`.
pub open spec fn spec_pcg32_nth_out(state: u64, seq: u64, n: nat) -> u32 {
    spec_pcg32_output(spec_pcg32_nth_state(state, seq, n))
}

/// The generator produced by the canonical seeding sequence: force the
/// increment odd, step once from zero, add the seed, step again.
pub open spec fn spec_pcg32_srandom(initstate: u64, initseq: u64) -> PCG32 {
    let seq = (initseq << 1) | 1;
    PCG32 {
        state: spec_pcg32_advance(wadd64(spec_pcg32_advance(0, seq), initstate), seq),
        seq,
    }
}

/// The double-width product of a draw and a bound; it always fits in 64 bits.
pub open spec fn spec_widemul(x: u32, y: u32) -> u64 {
    (x as u64 * y as u64) as u64
}

/// The draw budget of the bounded samplers.
pub const BOUNDED_DRAW_CAP: u64 = 0x1_0000_0000;

/// The rejection threshold for bounded sampling: `(2^32 - bound) mod bound`.
pub open spec fn spec_reject_threshold(bound: u32) -> u32 {
    (vstd::wrapping::u32_specs::wrapping_sub(0, bound) % bound) as u32
}

impl PCG32 {
    /// A generator with the documented default state and stream.
    pub fn new() -> (r: Self)
        ensures
            r.state == PCG32_DEFAULT_STATE,
            r.seq == PCG32_DEFAULT_SEQ,
    {
        PCG32 { state: PCG32_DEFAULT_STATE, seq: PCG32_DEFAULT_SEQ }
    }

    /// The canonical PCG initialization: the two discarded advances are part
    /// of the reference sequence and must not be skipped.
    pub fn srandom(initstate: u64, initseq: u64) -> (r: Self)
        ensures
            r == spec_pcg32_srandom(initstate, initseq),
    {
        let state = 0u64;
        let seq = (initseq << 1) | 1;
        let mut pcg32 = PCG32 { state, seq };
        let _ = pcg32.random();
        pcg32.state = pcg32.state.wrapping_add(initstate);
        let _ = pcg32.random();
        pcg32
    }

    /// Expands one seed word into a state and stream through splitmix, then
    /// runs the canonical seeding sequence on them.
    pub fn with_seed(seed: u64) -> (r: Self)
        ensures
            r == spec_pcg32_srandom(
                spec_splitmix64_out(seed, 0),
                spec_splitmix64_out(seed, 1),
            ),
    {
        let mut rng = SplitMix64::with(seed);
        let initstate = rng.random_u64();
        let initseq = rng.random_u64();
        proof {
            assert(initstate == spec_splitmix64_out(seed, 0));
            assert(spec_splitmix64_out(seed, 1) == spec_splitmix64_out(
                crate::scramble::wadd64(seed, crate::splitmix::GOLDEN_RATIO_64),
                0,
            ));
            assert(initseq == spec_splitmix64_out(seed, 1));
        }
        Self::srandom(initstate, initseq)
    }

    /// One step: returns the output permutation of the *old* state, then
    /// advances by the linear congruential transition.
    pub fn random(&mut self) -> (r: u32)
        ensures
            final(self).state == spec_pcg32_advance(old(self).state, old(self).seq),
            final(self).seq == old(self).seq,
            r == spec_pcg32_output(old(self).state),
    {
        let oldstate = self.state;
        self.state = oldstate.wrapping_mul(PCG32_MUL).wrapping_add(self.seq);
        let xorshifted: u32 = (((oldstate >> 18) ^ oldstate) >> 27) as u32;
        proof {
            assert(oldstate >> 59 < 32) by (bit_vector);
        }
        let rot = (oldstate >> 59) as u32;
        let nrot: u32 = 0u32.wrapping_sub(rot);
        proof {
            assert(nrot & 31 < 32) by (bit_vector);
        }
        let result = (xorshifted >> rot) | (xorshifted << (nrot & 31));
        result
    }

    /// Two successive 32-bit outputs concatenated, high half first.
    pub fn random_u64(&mut self) -> (r: u64)
        ensures
            final(self).state == spec_pcg32_nth_state(old(self).state, old(self).seq, 2),
            final(self).seq == old(self).seq,
            r == ((spec_pcg32_nth_out(old(self).state, old(self).seq, 0) as u64) << 32)
                | (spec_pcg32_nth_out(old(self).state, old(self).seq, 1) as u64),
    {
        let ghost s0 = old(self).state;
        let ghost sq = old(self).seq;
        let high = self.random();
        let low = self.random();
        proof {
            assert(spec_pcg32_nth_state(s0, sq, 0) == s0);
            assert(spec_pcg32_nth_state(s0, sq, 1) == spec_pcg32_advance(s0, sq));
            assert(spec_pcg32_nth_state(s0, sq, 2) == spec_pcg32_advance(
                spec_pcg32_advance(s0, sq),
                sq,
            ));
        }
        ((high as u64) << 32) | (low as u64)
    }

    /// Bounded sampling by rejection: draw until the output clears the
    /// threshold `(2^32 - bound) mod bound`, then reduce it modulo `bound`.
    /// The result is the first accepted output of the stream, so the
    /// distribution over `[0, bound)` is unbiased.  Each draw clears the
    /// threshold with probability above one half, so the draw budget of
    /// `2^32` attempts is unreachable in practice; if it were ever spent,
    /// the last draw is reduced modulo the bound.
    pub fn boundedrand(&mut self, bound: u32) -> (r: u32)
        requires
            bound > 0,
        ensures
            r < bound,
            final(self).seq == old(self).seq,
            exists|k: nat|
                {
                    &&& k < BOUNDED_DRAW_CAP
                    &&& (#[trigger] spec_pcg32_nth_out(old(self).state, old(self).seq, k)
                        >= spec_reject_threshold(bound) || k == BOUNDED_DRAW_CAP - 1)
                    &&& forall|j: nat|
                        j < k ==> #[trigger] spec_pcg32_nth_out(old(self).state, old(self).seq, j)
                            < spec_reject_threshold(bound)
                    &&& r == spec_pcg32_nth_out(old(self).state, old(self).seq, k) % bound
                    &&& final(self).state == spec_pcg32_nth_state(
                        old(self).state,
                        old(self).seq,
                        k + 1,
                    )
                },
    {
        let threshold = 0u32.wrapping_sub(bound) % bound;
        let ghost s0 = self.state;
        let ghost sq = self.seq;
        let ghost mut i: nat = 0nat;
        let mut left: u64 = BOUNDED_DRAW_CAP;
        proof {
            assert(spec_pcg32_nth_state(s0, sq, 0) == s0);
        }
        loop
            invariant
                bound > 0,
                s0 == old(self).state,
                sq == old(self).seq,
                threshold == spec_reject_threshold(bound),
                self.seq == sq,
                self.state == spec_pcg32_nth_state(s0, sq, i),
                left == BOUNDED_DRAW_CAP - i,
                left > 0,
                forall|j: nat| j < i ==> #[trigger] spec_pcg32_nth_out(s0, sq, j) < threshold,
            decreases left,
        {
            let r = self.random();
            left -= 1;
            proof {
                assert(r == spec_pcg32_nth_out(s0, sq, i));
                assert(self.state == spec_pcg32_nth_state(s0, sq, i + 1));
            }
            if r >= threshold || left == 0 {
                proof {
                    vstd::arithmetic::div_mod::lemma_mod_bound(r as int, bound as int);
                    assert(spec_pcg32_nth_out(s0, sq, i) >= spec_reject_threshold(bound)
                        || i == BOUNDED_DRAW_CAP - 1);
                }
                return r % bound;
            }
            proof {
                i = i + 1;
            }
        }
    }

    /// Bounded sampling by the multiplicative method: take the high half of
    /// the double-width product `x * bound`, redrawing while the low half
    /// falls under the same threshold the rejection method uses.  It accepts
    /// exactly the draws the rejection method would, without dividing in the
    /// common case, and it runs on the same `2^32`-attempt draw budget.
    pub fn boundedrand_fast(&mut self, bound: u32) -> (r: u32)
        requires
            bound > 0,
        ensures
            r < bound,
            final(self).seq == old(self).seq,
            exists|k: nat|
                {
                    &&& k < BOUNDED_DRAW_CAP
                    &&& (#[trigger] spec_u64_low(
                        spec_widemul(spec_pcg32_nth_out(old(self).state, old(self).seq, k), bound),
                    ) >= spec_reject_threshold(bound) || k == BOUNDED_DRAW_CAP - 1)
                    &&& forall|j: nat|
                        j < k ==> #[trigger] spec_u64_low(
                            spec_widemul(spec_pcg32_nth_out(old(self).state, old(self).seq, j), bound),
                        ) < spec_reject_threshold(bound)
                    &&& r == spec_u64_high(
                        spec_widemul(spec_pcg32_nth_out(old(self).state, old(self).seq, k), bound),
                    )
                    &&& final(self).state == spec_pcg32_nth_state(
                        old(self).state,
                        old(self).seq,
                        k + 1,
                    )
                },
    {
        let ghost s0 = self.state;
        let ghost sq = self.seq;
        let x = self.random();
        proof {
            assert((x as u64) * (bound as u64) <= 0xffff_ffffu64 * 0xffff_ffffu64)
                by (nonlinear_arith)
                requires
                    x as u64 <= 0xffff_ffffu64,
                    bound as u64 <= 0xffff_ffffu64,
            ;
            assert(forall|a: u32, b: u32|
                b > 0 ==> #[trigger] spec_u64_high(spec_widemul(a, b)) < b) by (bit_vector);
            vstd::arithmetic::div_mod::lemma_mod_bound(
                vstd::wrapping::u32_specs::wrapping_sub(0, bound) as int,
                bound as int,
            );
            assert(spec_reject_threshold(bound) < bound);
            assert(spec_pcg32_nth_state(s0, sq, 0) == s0);
            assert(x == spec_pcg32_nth_out(s0, sq, 0));
            assert(self.state == spec_pcg32_nth_state(s0, sq, 1));
        }
        let mut m = (x as u64) * (bound as u64);
        let mut l = u64_to_u32_low(m);
        let ghost mut kk: nat = 0nat;
        if l < bound {
            let t0 = 0u32.wrapping_sub(bound);
            let mut t = t0;
            if t >= bound {
                t -= bound;
                if t >= bound {
                    t %= bound;
                }
            }
            proof {
                vstd::arithmetic::div_mod::lemma_mod_sub_multiples_vanish(t0 as int, bound as int);
                if t0 < bound {
                    vstd::arithmetic::div_mod::lemma_small_mod(t0 as nat, bound as nat);
                } else if t0 - bound < bound {
                    vstd::arithmetic::div_mod::lemma_small_mod(
                        (t0 - bound) as nat,
                        bound as nat,
                    );
                }
                assert(t == spec_reject_threshold(bound));
            }
            let ghost mut i: nat = 0nat;
            let mut left: u64 = BOUNDED_DRAW_CAP - 1;
            while l < t && left > 0
                invariant
                    bound > 0,
                    s0 == old(self).state,
                    sq == old(self).seq,
                    t == spec_reject_threshold(bound),
                    self.seq == sq,
                    self.state == spec_pcg32_nth_state(s0, sq, i + 1),
                    m == spec_widemul(spec_pcg32_nth_out(s0, sq, i), bound),
                    l == spec_u64_low(m),
                    left == BOUNDED_DRAW_CAP - 1 - i,
                    forall|j: nat|
                        j < i ==> #[trigger] spec_u64_low(
                            spec_widemul(spec_pcg32_nth_out(s0, sq, j), bound),
                        ) < spec_reject_threshold(bound),
                decreases left,
            {
                proof {
                    i = i + 1;
                }
                left -= 1;
                let x2 = self.random();
                proof {
                    assert((x2 as u64) * (bound as u64) <= 0xffff_ffffu64 * 0xffff_ffffu64)
                        by (nonlinear_arith)
                        requires
                            x2 as u64 <= 0xffff_ffffu64,
                            bound as u64 <= 0xffff_ffffu64,
                    ;
                }
                m = (x2 as u64) * (bound as u64);
                l = u64_to_u32_low(m);
            }
            proof {
                kk = i;
            }
        }
        proof {
            assert(kk < BOUNDED_DRAW_CAP);
            assert(spec_u64_low(spec_widemul(spec_pcg32_nth_out(s0, sq, kk), bound))
                >= spec_reject_threshold(bound) || kk == BOUNDED_DRAW_CAP - 1);
            assert(m == spec_widemul(spec_pcg32_nth_out(s0, sq, kk), bound));
            assert(self.state == spec_pcg32_nth_state(s0, sq, kk + 1));
        }
        u64_to_u32_high(m)
    }
}

impl Default for PCG32 {
    /// The default generator uses the documented default state and stream.
    fn default() -> (r: Self)
        ensures
            r.state == PCG32_DEFAULT_STATE,
            r.seq == PCG32_DEFAULT_SEQ,
    {
        Self::new()
    }
}

} // verus!
