use lichtspiel::xorshift::{GenXorshiftStar, XorshiftStar32};

#[test]
fn xorshift_default_reference_vectors() {
    let mut rng = XorshiftStar32::new();
    assert_eq!(rng.random(), 0xafedecb1);
    assert_eq!(rng.random(), 0x51fec532);
    assert_eq!(rng.random(), 0x76f43bc9);
}

#[test]
fn xorshift_with_keeps_the_state() {
    let mut a = XorshiftStar32::with(0xc1f651c67c62c6e0);
    let mut b = XorshiftStar32::new();
    for _ in 0..8 {
        assert_eq!(a.random(), b.random());
    }
}

#[test]
fn xorshift_zero_state_is_repaired() {
    let mut zeroed = XorshiftStar32::with(0);
    let mut fresh = XorshiftStar32::new();
    for _ in 0..8 {
        assert_eq!(zeroed.random(), fresh.random());
    }
}

#[test]
fn xorshift_jump_skips_outputs() {
    let mut a = XorshiftStar32::new();
    let mut b = XorshiftStar32::new();
    a.jump(3);
    let _ = b.random();
    let _ = b.random();
    let _ = b.random();
    assert_eq!(a.random(), b.random());
}

#[test]
fn generic_xorshift_matches_the_field_version() {
    let mut generic: GenXorshiftStar<11, 31, 18, 0xd989bcacc137dcd5> =
        GenXorshiftStar::with_seed(0xc1f651c67c62c6e0);
    let mut fielded = XorshiftStar32::new();
    for _ in 0..8 {
        assert_eq!(generic.random_u32(), fielded.random());
    }
}

#[test]
fn generic_xorshift_u64_high_half_is_u32() {
    let mut a: GenXorshiftStar<11, 31, 18, 0xd989bcacc137dcd5> = GenXorshiftStar::with_seed(77);
    let mut b: GenXorshiftStar<11, 31, 18, 0xd989bcacc137dcd5> = GenXorshiftStar::with_seed(77);
    let full = a.random_u64();
    assert_eq!(b.random_u32(), (full >> 32) as u32);
}
