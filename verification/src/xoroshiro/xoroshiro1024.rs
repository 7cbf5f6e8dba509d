//! Xoroshiro with sixteen 64-bit state words and a rotating pointer.

use vstd::prelude::*;
use crate::scramble::{rotl64, rotr64, spec_rotl64, spec_rotr64, wadd64};
use crate::splitmix::{expand_u64, lemma_seed0_first_output, spec_splitmix64_out};

verus! {

/// The additive output before the advance: the word ahead of the pointer
/// plus the word at the pointer.
pub open spec fn spec_x1024_out(st: Seq<u64>, p: int) -> u64 {
    wadd64(st[(p + 1) % 16], st[p])
}

/// The state words after one advance at pointer `p`.
pub open spec fn spec_x1024_next_state(st: Seq<u64>, p: int) -> Seq<u64> {
    let s0 = st[(p + 1) % 16];
    let m = st[p] ^ s0;
    st.update(p, spec_rotl64(s0, 25) ^ m ^ (m << 27)).update((p + 1) % 16, spec_rotr64(m, 36))
}

/// The sixteen-word 64-bit xoroshiro with the additive output scrambler.
#[derive(Debug)]
pub struct Xoroshiro1024plus {
    pub state: [u64; 16],
    pub p: usize,
}

impl Xoroshiro1024plus {
    /// The pointer stays inside the state vector.
    pub open spec fn wf(self) -> bool {
        self.p < 16
    }

    /// Starts from an explicit state vector; the all-zero vector is a fixed
    /// point of the advance, so it is repaired to the seed-zero expansion.
    pub fn new(state: [u64; 16]) -> (r: Self)
        ensures
            r.p == 0,
            r.wf(),
            (exists|j: int| 0 <= j < 16 && #[trigger] state@[j] != 0) ==> r.state@ == state@,
            (forall|j: int| 0 <= j < 16 ==> #[trigger] state@[j] == 0) ==> forall|j: int|
                0 <= j < 16 ==> r.state@[j] == spec_splitmix64_out(0, j as nat),
            exists|j: int| 0 <= j < 16 && #[trigger] r.state@[j] != 0,
    {
        let mut all_zero = true;
        let mut i: usize = 0;
        while i < 16
            invariant
                i <= 16,
                all_zero <==> (forall|j: int| 0 <= j < i ==> state@[j] == 0),
            decreases 16 - i,
        {
            if state[i] != 0 {
                all_zero = false;
            }
            i += 1;
        }
        if !all_zero {
            let res = Xoroshiro1024plus { state, p: 0 };
            proof {
                let j = choose|j: int| 0 <= j < 16 && state@[j] != 0;
                assert(res.state@[j] != 0);
            }
            res
        } else {
            proof {
                lemma_seed0_first_output();
            }
            let w = expand_u64::<16>(0);
            let res = Xoroshiro1024plus { state: w, p: 0 };
            proof {
                assert(res.state@[0] != 0);
            }
            res
        }
    }

    /// Expands one seed word into the sixteen state words.
    pub fn with(seed: u64) -> (r: Self)
        ensures
            r.p == 0,
            r.wf(),
            (exists|j: int| 0 <= j < 16 && #[trigger] spec_splitmix64_out(seed, j as nat) != 0)
                ==> forall|j: int|
                0 <= j < 16 ==> r.state@[j] == spec_splitmix64_out(seed, j as nat),
            (forall|j: int| 0 <= j < 16 ==> #[trigger] spec_splitmix64_out(seed, j as nat) == 0)
                ==> forall|j: int|
                0 <= j < 16 ==> r.state@[j] == spec_splitmix64_out(0, j as nat),
            exists|j: int| 0 <= j < 16 && #[trigger] r.state@[j] != 0,
    {
        let w = expand_u64::<16>(seed);
        let res = Self::new(w);
        proof {
            if exists|j: int| 0 <= j < 16 && #[trigger] spec_splitmix64_out(seed, j as nat) != 0 {
                let j = choose|j: int|
                    0 <= j < 16 && #[trigger] spec_splitmix64_out(seed, j as nat) != 0;
                assert(w@[j] != 0);
            }
        }
        res
    }

    /// The additive output of the two words around the pointer, after which
    /// that pair advances and the pointer moves on.
    pub fn random_u64(&mut self) -> (r: u64)
        requires
            old(self).wf(),
        ensures
            final(self).wf(),
            final(self).p == (old(self).p + 1) % 16,
            r == spec_x1024_out(old(self).state@, old(self).p as int),
            final(self).state@ == spec_x1024_next_state(old(self).state@, old(self).p as int),
    {
        let q = self.p;
        let pn = (self.p + 1) & 15;
        proof {
            assert(pn == (q + 1) % 16) by (bit_vector)
                requires
                    q < 16,
                    pn == ((q + 1) as usize) & 15,
            ;
        }
        self.p = pn;
        let s0 = self.state[self.p];
        let s15 = self.state[q];

        let result = s0.wrapping_add(s15);
        let m = s15 ^ s0;
        self.state[q] = rotl64(s0, 25) ^ m ^ (m << 27);
        let p_now = self.p;
        self.state[p_now] = rotr64(m, 36);
        result
    }
}

} // verus!
