//! The Xorshift* generator: one 64-bit word of state walked by three
//! xor-shifts, with a multiplicative output taken *before* advancing.

use vstd::prelude::*;
use crate::scramble::wmul64;
use crate::util::spec_u64_high;

verus! {

/// Default first shift.
pub const XORSHIFT_DEFAULT_A: u64 = 11;

/// Default second (left) shift.
pub const XORSHIFT_DEFAULT_B: u64 = 31;

/// Default third shift.
pub const XORSHIFT_DEFAULT_C: u64 = 18;

/// Default odd output multiplier.
pub const XORSHIFT_DEFAULT_TRUNCATE: u64 = 0xd989bcacc137dcd5;

/// Default non-zero state.
pub const XORSHIFT_DEFAULT_STATE: u64 = 0xc1f651c67c62c6e0;

/// The state after one xorshift walk with shift triple `(a, b, c)`.
pub open spec fn spec_xorshift_advance(state: u64, a: u64, b: u64, c: u64) -> u64 {
    let s1 = state ^ (state >> a);
    let s2 = s1 ^ (s1 << b);
    s2 ^ (s2 >> c)
}

/// The state after `n` xorshift walks.
pub open spec fn spec_xorshift_nth_state(state: u64, a: u64, b: u64, c: u64, n: nat) -> u64
    decreases n,
{
    if n == 0 {
        state
    } else {
        spec_xorshift_advance(
            spec_xorshift_nth_state(state, a, b, c, (n - 1) as nat),
            a,
            b,
            c,
        )
    }
}

/// The 32-bit output for a state: the high half of the product with the
/// odd multiplier.
pub open spec fn spec_xorshift_out(state: u64, t: u64) -> u32 {
    spec_u64_high(wmul64(state, t))
}

/// An Xorshift* generator carrying its shift triple, multiplier and state.
#[derive(Debug, PartialEq, Eq, Structural)]
pub struct XorshiftStar32 {
    pub a: u64,
    pub b: u64,
    pub c: u64,
    pub state: u64,
    pub threshold: u64,
}

impl XorshiftStar32 {
    /// The shift triple stays under the word width, so the walk is defined.
    pub open spec fn wf(self) -> bool {
        self.a < 64 && self.b < 64 && self.c < 64
    }

    /// A generator over the default shift triple, multiplier and state.
    pub fn new() -> (r: Self)
        ensures
            r.a == XORSHIFT_DEFAULT_A,
            r.b == XORSHIFT_DEFAULT_B,
            r.c == XORSHIFT_DEFAULT_C,
            r.state == XORSHIFT_DEFAULT_STATE,
            r.threshold == XORSHIFT_DEFAULT_TRUNCATE,
            r.wf(),
    {
        XorshiftStar32 {
            a: XORSHIFT_DEFAULT_A,
            b: XORSHIFT_DEFAULT_B,
            c: XORSHIFT_DEFAULT_C,
            state: XORSHIFT_DEFAULT_STATE,
            threshold: XORSHIFT_DEFAULT_TRUNCATE,
        }
    }

    /// A generator over the default constants with a caller-chosen state;
    /// the all-zero state is a fixed point of the walk, so it is repaired
    /// to the documented default state.
    pub fn with(state: u64) -> (r: Self)
        ensures
            r.a == XORSHIFT_DEFAULT_A,
            r.b == XORSHIFT_DEFAULT_B,
            r.c == XORSHIFT_DEFAULT_C,
            r.state == if state == 0 { XORSHIFT_DEFAULT_STATE } else { state },
            r.state != 0,
            r.threshold == XORSHIFT_DEFAULT_TRUNCATE,
            r.wf(),
    {
        if state == 0 {
            Self::new()
        } else {
            XorshiftStar32 { state, ..Self::new() }
        }
    }

    /// Walks the state once without producing output.
    fn advance(&mut self)
        requires
            old(self).wf(),
        ensures
            final(self).state == spec_xorshift_advance(
                old(self).state,
                old(self).a,
                old(self).b,
                old(self).c,
            ),
            final(self).a == old(self).a,
            final(self).b == old(self).b,
            final(self).c == old(self).c,
            final(self).threshold == old(self).threshold,
            final(self).wf(),
    {
        self.state ^= self.state >> self.a;
        self.state ^= self.state << self.b;
        self.state ^= self.state >> self.c;
    }

    /// The output of the *current* state, after which the state walks once.
    pub fn random(&mut self) -> (r: u32)
        requires
            old(self).wf(),
        ensures
            r == spec_xorshift_out(old(self).state, old(self).threshold),
            final(self).state == spec_xorshift_advance(
                old(self).state,
                old(self).a,
                old(self).b,
                old(self).c,
            ),
            final(self).a == old(self).a,
            final(self).b == old(self).b,
            final(self).c == old(self).c,
            final(self).threshold == old(self).threshold,
            final(self).wf(),
    {
        let result = self.state.wrapping_mul(self.threshold);
        self.advance();
        crate::util::u64_to_u32_high(result)
    }

    /// Walks the state `jumps` times without producing output, to
    /// decorrelate streams of independent instances.
    pub fn jump(&mut self, jumps: usize)
        requires
            old(self).wf(),
        ensures
            final(self).state == spec_xorshift_nth_state(
                old(self).state,
                old(self).a,
                old(self).b,
                old(self).c,
                jumps as nat,
            ),
            final(self).a == old(self).a,
            final(self).b == old(self).b,
            final(self).c == old(self).c,
            final(self).threshold == old(self).threshold,
            final(self).wf(),
    {
        let mut done: usize = 0;
        while done < jumps
            invariant
                old(self).wf(),
                done <= jumps,
                self.a == old(self).a,
                self.b == old(self).b,
                self.c == old(self).c,
                self.threshold == old(self).threshold,
                self.state == spec_xorshift_nth_state(
                    old(self).state,
                    old(self).a,
                    old(self).b,
                    old(self).c,
                    done as nat,
                ),
            decreases jumps - done,
        {
            self.advance();
            done += 1;
        }
    }
}

impl Default for XorshiftStar32 {
    /// The default generator uses the documented default constants.
    fn default() -> (r: Self)
        ensures
            r.a == XORSHIFT_DEFAULT_A,
            r.b == XORSHIFT_DEFAULT_B,
            r.c == XORSHIFT_DEFAULT_C,
            r.state == XORSHIFT_DEFAULT_STATE,
            r.threshold == XORSHIFT_DEFAULT_TRUNCATE,
            r.wf(),
    {
        Self::new()
    }
}

/// An Xorshift* generator whose shift triple and multiplier are fixed at
/// the type level.
pub struct GenXorshiftStar<const A: u64, const B: u64, const C: u64, const T: u64> {
    pub state: u64,
}

impl<const A: u64, const B: u64, const C: u64, const T: u64> GenXorshiftStar<A, B, C, T> {
    /// Walks the state once without producing output.
    fn advance(&mut self)
        requires
            A < 64,
            B < 64,
            C < 64,
        ensures
            final(self).state == spec_xorshift_advance(old(self).state, A, B, C),
    {
        self.state ^= self.state >> A;
        self.state ^= self.state << B;
        self.state ^= self.state >> C;
    }

    /// The 32-bit output of the current state, after which the state walks.
    pub fn random_u32(&mut self) -> (r: u32)
        requires
            A < 64,
            B < 64,
            C < 64,
        ensures
            r == spec_xorshift_out(old(self).state, T),
            final(self).state == spec_xorshift_advance(old(self).state, A, B, C),
    {
        let result = self.state.wrapping_mul(T);
        self.advance();
        (result >> 32) as u32
    }

    /// The full 64-bit product of the current state, after which the state
    /// walks.
    pub fn random_u64(&mut self) -> (r: u64)
        requires
            A < 64,
            B < 64,
            C < 64,
        ensures
            r == wmul64(old(self).state, T),
            final(self).state == spec_xorshift_advance(old(self).state, A, B, C),
    {
        let result = self.state.wrapping_mul(T);
        self.advance();
        result
    }

    /// Seeds the state directly; the all-zero state is a fixed point of the
    /// walk, so it is repaired to the documented default state.
    pub fn with_seed(seed: u64) -> (r: Self)
        ensures
            r.state == if seed == 0 { XORSHIFT_DEFAULT_STATE } else { seed },
            r.state != 0,
    {
        if seed == 0 {
            GenXorshiftStar::<A, B, C, T> { state: XORSHIFT_DEFAULT_STATE }
        } else {
            GenXorshiftStar::<A, B, C, T> { state: seed }
        }
    }
}

} // verus!
