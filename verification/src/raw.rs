//! The raw random value type `r64` and the uniform engine facade [`RNG`].
//!
//! A 64-bit raw output wrapped so that conversions to the narrower unsigned
//! width are uniform across generators: a 64-bit native value yields its
//! *high* 32 bits when a 32-bit value is asked for, and a 32-bit value
//! widens into the low bits.  The facade is a closed sum over a subset of
//! the generator family; dispatch is a direct match on the tag.

use vstd::prelude::*;
use crate::bitmixer::{bitmix32, spec_bitmix32};
use crate::pcg::{PCG32, BOUNDED_DRAW_CAP, spec_pcg32_advance, spec_pcg32_output,
    spec_reject_threshold, PCG32_DEFAULT_STATE, PCG32_DEFAULT_SEQ};
use crate::splitmix::spec_splitmix64_out;
use crate::squares::{Squares, spec_squares_out32, spec_squares_out64};
use crate::xorshift::{XorshiftStar32, spec_xorshift_advance, spec_xorshift_out,
    XORSHIFT_DEFAULT_A, XORSHIFT_DEFAULT_B, XORSHIFT_DEFAULT_C, XORSHIFT_DEFAULT_STATE,
    XORSHIFT_DEFAULT_TRUNCATE};

verus! {

/// A raw 64-bit random value, fresh from a generator's output function.
#[allow(non_camel_case_types)]
#[derive(Debug, PartialEq, Eq, Structural)]
pub struct r64(pub u64);

impl From<u32> for r64 {
    /// Widens a 32-bit raw value; it carries no high bits.
    fn from(value: u32) -> (r: Self) {
        r64(value as u64)
    }
}

impl vstd::std_specs::convert::FromSpecImpl<u32> for r64 {
    open spec fn obeys_from_spec() -> bool {
        true
    }

    open spec fn from_spec(value: u32) -> r64 {
        r64(value as u64)
    }
}

impl From<u64> for r64 {
    fn from(value: u64) -> (r: Self) {
        r64(value)
    }
}

impl vstd::std_specs::convert::FromSpecImpl<u64> for r64 {
    open spec fn obeys_from_spec() -> bool {
        true
    }

    open spec fn from_spec(value: u64) -> r64 {
        r64(value)
    }
}

impl From<r64> for u32 {
    /// A 64-bit native value hands out its high 32 bits.
    fn from(value: r64) -> (r: Self) {
        (value.0 >> 32) as u32
    }
}

impl vstd::std_specs::convert::FromSpecImpl<r64> for u32 {
    open spec fn obeys_from_spec() -> bool {
        true
    }

    open spec fn from_spec(value: r64) -> u32 {
        (value.0 >> 32) as u32
    }
}

impl From<r64> for u64 {
    fn from(value: r64) -> (r: Self) {
        value.0
    }
}

impl vstd::std_specs::convert::FromSpecImpl<r64> for u64 {
    open spec fn obeys_from_spec() -> bool {
        true
    }

    open spec fn from_spec(value: r64) -> u64 {
        value.0
    }
}

/// The closed set of algorithm tags the engine facade supports.  Each tag
/// is bound to one state shape, one transition and one output function;
/// new algorithms get new tags.
#[derive(Debug, Clone, Copy, PartialEq, Eq, Structural)]
pub enum Algorithm {
    Xorshift,
    Pcg32,
    Squares,
}

/// The uniform engine facade: one of the supported generators, behind one
/// capability set ("produce the next raw unsigned integer").
#[derive(Debug)]
pub enum RNG {
    Xorshift(XorshiftStar32),
    Pcg32(PCG32),
    Squares(Squares),
}

impl RNG {
    /// The held generator is structurally sound (its shift constants stay
    /// under the word width).
    pub open spec fn wf(self) -> bool {
        match self {
            RNG::Xorshift(x) => x.wf(),
            RNG::Pcg32(_) => true,
            RNG::Squares(_) => true,
        }
    }

    /// How many draws the held generator can still serve: the Squares
    /// counter stops at its maximum, the others never run out.
    pub open spec fn draws_left(self) -> nat {
        match self {
            RNG::Squares(s) => (u64::MAX - s.ctr) as nat,
            _ => u64::MAX as nat,
        }
    }

    /// The generator and the raw 32-bit value after one draw.
    pub open spec fn spec_next32(self) -> (RNG, u32) {
        match self {
            RNG::Xorshift(x) => (
                RNG::Xorshift(
                    XorshiftStar32 {
                        state: spec_xorshift_advance(x.state, x.a, x.b, x.c),
                        ..x
                    },
                ),
                spec_xorshift_out(x.state, x.threshold),
            ),
            RNG::Pcg32(p) => (
                RNG::Pcg32(PCG32 { state: spec_pcg32_advance(p.state, p.seq), seq: p.seq }),
                spec_pcg32_output(p.state),
            ),
            RNG::Squares(s) => (
                RNG::Squares(Squares { ctr: (s.ctr + 1) as u64, key: s.key }),
                spec_squares_out32(s.ctr, s.key),
            ),
        }
    }

    /// The generator and the raw 64-bit value after one 64-bit draw: a
    /// 64-bit native generator serves it in one step, a 32-bit native one
    /// concatenates two successive outputs, high half first.
    pub open spec fn spec_next64(self) -> (RNG, u64) {
        match self {
            RNG::Squares(s) => (
                RNG::Squares(Squares { ctr: (s.ctr + 1) as u64, key: s.key }),
                spec_squares_out64(s.ctr, s.key),
            ),
            _ => {
                let (g1, h) = self.spec_next32();
                let (g2, l) = g1.spec_next32();
                (g2, ((h as u64) << 32) | (l as u64))
            },
        }
    }

    /// The generator after `n` 32-bit draws.
    pub open spec fn spec_nth_state32(self, n: nat) -> RNG
        decreases n,
    {
        if n == 0 {
            self
        } else {
            self.spec_nth_state32((n - 1) as nat).spec_next32().0
        }
    }

    /// The `n`-th raw 32-bit value of the stream.
    pub open spec fn spec_nth_out32(self, n: nat) -> u32 {
        self.spec_nth_state32(n).spec_next32().1
    }

    /// An engine over the tagged algorithm, from its documented defaults or
    /// from one explicit seed word.
    pub fn new(alg: Algorithm, seed: Option<u64>) -> (r: RNG)
        ensures
            r.wf(),
            match (alg, r) {
                (Algorithm::Xorshift, RNG::Xorshift(x)) => {
                    &&& x.a == XORSHIFT_DEFAULT_A
                    &&& x.b == XORSHIFT_DEFAULT_B
                    &&& x.c == XORSHIFT_DEFAULT_C
                    &&& x.threshold == XORSHIFT_DEFAULT_TRUNCATE
                    &&& x.state == match seed {
                        None => XORSHIFT_DEFAULT_STATE,
                        Some(s) => if s == 0 { XORSHIFT_DEFAULT_STATE } else { s },
                    }
                },
                (Algorithm::Pcg32, RNG::Pcg32(p)) => p == match seed {
                    None => (PCG32 { state: PCG32_DEFAULT_STATE, seq: PCG32_DEFAULT_SEQ }),
                    Some(s) => crate::pcg::spec_pcg32_srandom(
                        spec_splitmix64_out(s, 0),
                        spec_splitmix64_out(s, 1),
                    ),
                },
                (Algorithm::Squares, RNG::Squares(q)) => q.ctr == 0 && q.key == match seed {
                    None => spec_splitmix64_out(0, 0),
                    Some(s) => spec_splitmix64_out(s, 0),
                },
                _ => false,
            },
    {
        match (alg, seed) {
            (Algorithm::Xorshift, None) => Self::with_xorshift(),
            (Algorithm::Pcg32, None) => Self::with_pcg32(),
            (Algorithm::Squares, None) => Self::with_squares(),
            (Algorithm::Xorshift, Some(s)) => RNG::Xorshift(XorshiftStar32::with(s)),
            (Algorithm::Pcg32, Some(s)) => RNG::Pcg32(PCG32::with_seed(s)),
            (Algorithm::Squares, Some(s)) => RNG::Squares(Squares::with_seed(s)),
        }
    }

    /// An engine over the Xorshift* generator with its default constants.
    pub fn with_xorshift() -> (r: RNG)
        ensures
            (r == RNG::Xorshift(
                XorshiftStar32 {
                    a: XORSHIFT_DEFAULT_A,
                    b: XORSHIFT_DEFAULT_B,
                    c: XORSHIFT_DEFAULT_C,
                    state: XORSHIFT_DEFAULT_STATE,
                    threshold: XORSHIFT_DEFAULT_TRUNCATE,
                },
            )),
            r.wf(),
    {
        RNG::Xorshift(XorshiftStar32::new())
    }

    /// An engine over the PCG32 generator with its default state and stream.
    pub fn with_pcg32() -> (r: RNG)
        ensures
            (r == RNG::Pcg32(PCG32 { state: PCG32_DEFAULT_STATE, seq: PCG32_DEFAULT_SEQ })),
            r.wf(),
    {
        RNG::Pcg32(PCG32::new())
    }

    /// An engine over the Squares generator keyed from the seed-zero
    /// expansion.
    pub fn with_squares() -> (r: RNG)
        ensures
            (r == RNG::Squares(Squares { ctr: 0, key: spec_splitmix64_out(0, 0) })),
            r.wf(),
    {
        RNG::Squares(Squares::default())
    }

    /// The next raw 32-bit value of whichever generator is held.
    pub fn next_u32(&mut self) -> (r: u32)
        requires
            old(self).wf(),
            old(self).draws_left() >= 1,
        ensures
            *final(self) == old(self).spec_next32().0,
            r == old(self).spec_next32().1,
            final(self).wf(),
    {
        match self {
            RNG::Xorshift(x) => x.random(),
            RNG::Pcg32(p) => p.random(),
            RNG::Squares(s) => s.random_u32(),
        }
    }

    /// The next raw 64-bit value: one native draw for Squares, two
    /// concatenated draws (high half first) for the 32-bit natives.
    pub fn next_u64(&mut self) -> (r: u64)
        requires
            old(self).wf(),
            old(self).draws_left() >= 2,
        ensures
            *final(self) == old(self).spec_next64().0,
            r == old(self).spec_next64().1,
            final(self).wf(),
    {
        if let RNG::Squares(s) = self {
            s.random()
        } else {
            let h = self.next_u32();
            let l = self.next_u32();
            ((h as u64) << 32) | (l as u64)
        }
    }

    /// The next raw 32-bit value passed through the canonical 32-bit
    /// avalanche finalizer.
    pub fn next_bitmixed_u32(&mut self) -> (r: u32)
        requires
            old(self).wf(),
            old(self).draws_left() >= 1,
        ensures
            *final(self) == old(self).spec_next32().0,
            r == spec_bitmix32(old(self).spec_next32().1),
            final(self).wf(),
    {
        let raw = self.next_u32();
        bitmix32(raw)
    }

    /// A value uniformly distributed over `[0, bound)`, by rejection: draw
    /// until the output clears the threshold `(2^32 - bound) mod bound`,
    /// then reduce it modulo the bound.  A zero bound is a configuration
    /// error and is excluded by contract.  The draw budget of `2^32`
    /// attempts is unreachable in practice; if it were ever spent, the last
    /// draw is reduced modulo the bound.
    pub fn bounded(&mut self, bound: u32) -> (r: u32)
        requires
            old(self).wf(),
            bound > 0,
            old(self).draws_left() >= BOUNDED_DRAW_CAP,
        ensures
            r < bound,
            final(self).wf(),
            exists|k: nat|
                {
                    &&& k < BOUNDED_DRAW_CAP
                    &&& (#[trigger] old(self).spec_nth_out32(k) >= spec_reject_threshold(bound)
                        || k == BOUNDED_DRAW_CAP - 1)
                    &&& forall|j: nat|
                        j < k ==> #[trigger] old(self).spec_nth_out32(j) < spec_reject_threshold(
                            bound,
                        )
                    &&& r == old(self).spec_nth_out32(k) % bound
                    &&& *final(self) == old(self).spec_nth_state32(k + 1)
                },
    {
        let threshold = 0u32.wrapping_sub(bound) % bound;
        let ghost g0 = *self;
        let ghost mut i: nat = 0nat;
        let mut left: u64 = BOUNDED_DRAW_CAP;
        proof {
            assert(g0.spec_nth_state32(0) == g0);
        }
        loop
            invariant
                bound > 0,
                g0 == *old(self),
                threshold == spec_reject_threshold(bound),
                self.wf(),
                *self == g0.spec_nth_state32(i),
                left == BOUNDED_DRAW_CAP - i,
                left > 0,
                g0.draws_left() >= BOUNDED_DRAW_CAP,
                self.draws_left() >= left,
                forall|j: nat| j < i ==> #[trigger] g0.spec_nth_out32(j) < threshold,
            decreases left,
        {
            let r = self.next_u32();
            left -= 1;
            proof {
                assert(r == g0.spec_nth_out32(i));
                assert(*self == g0.spec_nth_state32(i + 1));
            }
            if r >= threshold || left == 0 {
                proof {
                    vstd::arithmetic::div_mod::lemma_mod_bound(r as int, bound as int);
                    assert(g0.spec_nth_out32(i) >= spec_reject_threshold(bound)
                        || i == BOUNDED_DRAW_CAP - 1);
                }
                return r % bound;
            }
            proof {
                i = i + 1;
            }
        }
    }
}

/// For every engine, one 32-bit draw yields the high half of the 64-bit
/// draw from the same state: the 64-bit natives hand out their top bits,
/// and the 32-bit natives put their first output into the top half.
pub proof fn lemma_next32_is_high_of_next64(g: RNG)
    ensures
        g.spec_next32().1 == crate::util::spec_u64_high(g.spec_next64().1),
{
    match g {
        RNG::Squares(s) => {
            crate::squares::lemma_squares_u32_is_high_of_u64(s.ctr, s.key);
        },
        _ => {
            let h = g.spec_next32().1;
            let l = g.spec_next32().0.spec_next32().1;
            assert((((h as u64) << 32) | (l as u64)) >> 32 == h) by (bit_vector);
        },
    }
}

} // verus!
