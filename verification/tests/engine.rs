use lichtspiel::bitmixer::bitmix32;
use lichtspiel::pcg::PCG32;
use lichtspiel::raw::{Algorithm, RNG};
use lichtspiel::squares::Squares;
use lichtspiel::xorshift::XorshiftStar32;

#[test]
fn engine_pcg32_matches_the_generator() {
    let mut engine = RNG::with_pcg32();
    let mut direct = PCG32::new();
    for _ in 0..8 {
        assert_eq!(engine.next_u32(), direct.random());
    }
    assert_eq!(RNG::with_pcg32().next_u32(), 0x152ca78d);
}

#[test]
fn engine_xorshift_matches_the_generator() {
    let mut engine = RNG::with_xorshift();
    let mut direct = XorshiftStar32::new();
    for _ in 0..8 {
        assert_eq!(engine.next_u32(), direct.random());
    }
}

#[test]
fn engine_squares_takes_high_bits() {
    let mut engine = RNG::with_squares();
    let mut direct = Squares::default();
    for _ in 0..8 {
        assert_eq!(engine.next_u32(), (direct.random_u64() >> 32) as u32);
    }
    assert_eq!(RNG::with_squares().next_u32(), 0x1d20353b);
}

#[test]
fn engine_u64_concatenates_high_first_for_32_bit_natives() {
    let mut a = RNG::with_pcg32();
    let mut b = RNG::with_pcg32();
    let high = a.next_u32();
    let low = a.next_u32();
    assert_eq!(b.next_u64(), ((high as u64) << 32) | (low as u64));
}

#[test]
fn engine_u64_is_native_for_squares() {
    let mut engine = RNG::with_squares();
    let mut direct = Squares::default();
    for _ in 0..8 {
        assert_eq!(engine.next_u64(), direct.random_u64());
    }
    assert_eq!(RNG::with_squares().next_u64(), 0x1d20353bfc9b6c94);
}

#[test]
fn engine_bitmix_whitens_the_raw_output() {
    let mut a = RNG::with_pcg32();
    let mut b = RNG::with_pcg32();
    let raw = a.next_u32();
    assert_eq!(b.next_bitmixed_u32(), bitmix32(raw));
    assert_eq!(RNG::with_pcg32().next_bitmixed_u32(), 0x973dc4df);
}

#[test]
fn engine_bounded_stays_under_the_bound() {
    let mut engines = [RNG::with_pcg32(), RNG::with_xorshift(), RNG::with_squares()];
    for engine in engines.iter_mut() {
        for _ in 0..300 {
            assert_eq!(engine.bounded(1), 0);
        }
        for _ in 0..300 {
            assert!(engine.bounded(10) < 10);
        }
        let big = u32::MAX - 2;
        for _ in 0..300 {
            assert!(engine.bounded(big) < big);
        }
    }
}

#[test]
fn engine_new_dispatches_on_the_tag() {
    let mut tagged = RNG::new(Algorithm::Pcg32, None);
    let mut direct = RNG::with_pcg32();
    for _ in 0..4 {
        assert_eq!(tagged.next_u32(), direct.next_u32());
    }
    let mut seeded = RNG::new(Algorithm::Pcg32, Some(7));
    let mut manual = PCG32::with_seed(7);
    for _ in 0..4 {
        assert_eq!(seeded.next_u32(), manual.random());
    }
    let mut sq = RNG::new(Algorithm::Squares, Some(3));
    let mut sq_direct = lichtspiel::squares::Squares::with_seed(3);
    for _ in 0..4 {
        assert_eq!(sq.next_u64(), sq_direct.random_u64());
    }
    let mut xs = RNG::new(Algorithm::Xorshift, Some(0));
    let mut xs_direct = XorshiftStar32::new();
    for _ in 0..4 {
        assert_eq!(xs.next_u32(), xs_direct.random());
    }
}
