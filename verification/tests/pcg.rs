use lichtspiel::pcg::PCG32;
use lichtspiel::util::{u64_to_u32_high, u64_to_u32_low};

const DEFAULT_STATE: u64 = 0x853c49e6748fea9b;
const DEFAULT_SEQ: u64 = 0xda3e39cb94b95bdb;

#[test]
fn rng_new_works() {
    let pcg_32 = PCG32::new();
    assert_eq!(pcg_32.state, DEFAULT_STATE);
    assert_eq!(pcg_32.seq, DEFAULT_SEQ);
}

#[test]
fn rng_default_works() {
    let pcg_32 = PCG32::default();
    assert_eq!(pcg_32.state, DEFAULT_STATE);
    assert_eq!(pcg_32.seq, DEFAULT_SEQ);
}

#[test]
fn rng_random_works() {
    let mut pcg32 = PCG32::srandom(42, 54);

    assert_eq!(pcg32.random(), 0xa15c02b7);
    assert_eq!(pcg32.random(), 0x7b47f409);
    assert_eq!(pcg32.random(), 0xba1d3330);
    assert_eq!(pcg32.random(), 0x83d2f293);
    assert_eq!(pcg32.random(), 0xbfa4784b);
    assert_eq!(pcg32.random(), 0xcbed606e);
    assert_eq!(pcg32.random(), 0xbfc6a3ad);
    assert_eq!(pcg32.random(), 0x812fff6d);
}

#[test]
fn rng_from_high_to_low_works() {
    let mut pcg32 = PCG32::srandom(42, 54);
    _ = pcg32.random();
    let h = u64_to_u32_high(pcg32.state);
    let l = u64_to_u32_low(pcg32.state);
    assert_eq!(h, 0x2b47fed8);
    assert_eq!(l, 0x8766bb05);

    _ = pcg32.random();
    let h = u64_to_u32_high(pcg32.state);
    let l = u64_to_u32_low(pcg32.state);
    assert_eq!(h, 0x8b33296d);
    assert_eq!(l, 0x19bf5b4e);
}

#[test]
fn rng_iterator_works() {
    let mut pcg32 = PCG32::srandom(42, 54);
    let exp = [0xba1d3330_u32, 0x83d2f293_u32, 0xbfa4784b_u32, 0xcbed606e_u32];

    let _ = pcg32.random();
    let _ = pcg32.random();
    for ex in exp.iter() {
        assert_eq!(pcg32.random(), *ex);
    }
}

#[test]
fn pcg_new_works() {
    let pcg_32 = PCG32::new();
    assert_eq!(pcg_32.state, DEFAULT_STATE);
    assert_eq!(pcg_32.seq, DEFAULT_SEQ);
}

#[test]
fn pcg_default_works() {
    let pcg_32 = PCG32::default();
    assert_eq!(pcg_32.state, DEFAULT_STATE);
    assert_eq!(pcg_32.seq, DEFAULT_SEQ);
}

#[test]
fn pcg_random_works() {
    let mut pcg32 = PCG32::srandom(42, 54);

    assert_eq!(pcg32.random(), 0xa15c02b7);
    assert_eq!(pcg32.random(), 0x7b47f409);
    assert_eq!(pcg32.random(), 0xba1d3330);
    assert_eq!(pcg32.random(), 0x83d2f293);
    assert_eq!(pcg32.random(), 0xbfa4784b);
    assert_eq!(pcg32.random(), 0xcbed606e);
    assert_eq!(pcg32.random(), 0xbfc6a3ad);
    assert_eq!(pcg32.random(), 0x812fff6d);
}

#[test]
fn pcg_from_high_to_low_works() {
    let mut pcg32 = PCG32::srandom(42, 54);
    _ = pcg32.random();
    let h = u64_to_u32_high(pcg32.state);
    let l = u64_to_u32_low(pcg32.state);
    assert_eq!(h, 0x2b47fed8);
    assert_eq!(l, 0x8766bb05);

    _ = pcg32.random();
    let h = u64_to_u32_high(pcg32.state);
    let l = u64_to_u32_low(pcg32.state);
    assert_eq!(h, 0x8b33296d);
    assert_eq!(l, 0x19bf5b4e);
}

#[test]
fn pcg_iterator_works() {
    let mut pcg32 = PCG32::srandom(42, 54);
    let exp = [0xba1d3330_u32, 0x83d2f293_u32, 0xbfa4784b_u32, 0xcbed606e_u32];

    let _ = pcg32.random();
    let _ = pcg32.random();
    for ex in exp.iter() {
        assert_eq!(pcg32.random(), *ex);
    }
}

#[test]
fn bounded_works() {
    let mut pcg32 = PCG32::new();
    let b = 9373u32;

    for _ in 0..10 {
        assert!(pcg32.boundedrand(b) <= b)
    }
}

#[test]
fn bounded_fast_works() {
    let mut pcg32 = PCG32::new();
    let b = 9373u32;

    for _ in 0..10 {
        assert!(pcg32.boundedrand_fast(b) <= b)
    }
}

#[test]
fn mod_new_works() {
    let pcg_32 = PCG32::new();
    assert_eq!(pcg_32.state, DEFAULT_STATE);
    assert_eq!(pcg_32.seq, DEFAULT_SEQ);
}

#[test]
fn mod_default_works() {
    let pcg_32 = PCG32::default();
    assert_eq!(pcg_32.state, DEFAULT_STATE);
    assert_eq!(pcg_32.seq, DEFAULT_SEQ);
}

#[test]
fn mod_random_works() {
    let mut pcg32 = PCG32::srandom(42, 54);

    assert_eq!(pcg32.random(), 0xa15c02b7);
    assert_eq!(pcg32.random(), 0x7b47f409);
    assert_eq!(pcg32.random(), 0xba1d3330);
    assert_eq!(pcg32.random(), 0x83d2f293);
    assert_eq!(pcg32.random(), 0xbfa4784b);
    assert_eq!(pcg32.random(), 0xcbed606e);
    assert_eq!(pcg32.random(), 0xbfc6a3ad);
    assert_eq!(pcg32.random(), 0x812fff6d);
}

#[test]
fn mod_iterator_works() {
    let mut pcg32 = PCG32::srandom(42, 54);
    let exp = [0xba1d3330_u32, 0x83d2f293_u32, 0xbfa4784b_u32, 0xcbed606e_u32];

    let _ = pcg32.random();
    let _ = pcg32.random();
    for ex in exp.iter() {
        assert_eq!(pcg32.random(), *ex);
    }
}

#[test]
fn pcg_random_u64_concatenates_high_first() {
    let mut a = PCG32::new();
    let mut b = PCG32::new();
    let high = a.random();
    let low = a.random();
    let joined = b.random_u64();
    assert_eq!(joined, ((high as u64) << 32) | (low as u64));
    assert_eq!(joined, 0x152ca78d027c6003);
}

#[test]
fn pcg_with_seed_matches_manual_expansion() {
    let mut sm = lichtspiel::splitmix::SplitMix64::with(7);
    let initstate = sm.random_u64();
    let initseq = sm.random_u64();
    let mut a = PCG32::with_seed(7);
    let mut b = PCG32::srandom(initstate, initseq);
    for _ in 0..8 {
        assert_eq!(a.random(), b.random());
    }
}

#[test]
fn bounded_small_and_large() {
    let mut pcg32 = PCG32::srandom(42, 54);
    for _ in 0..300 {
        assert_eq!(pcg32.boundedrand(1), 0);
        assert_eq!(pcg32.boundedrand_fast(1), 0);
    }
    let big = u32::MAX - 2;
    for _ in 0..300 {
        assert!(pcg32.boundedrand(big) < big);
        assert!(pcg32.boundedrand_fast(big) < big);
    }
    for _ in 0..300 {
        assert!(pcg32.boundedrand(10) < 10);
        assert!(pcg32.boundedrand_fast(10) < 10);
    }
}
