use lichtspiel::xoshiro::xoshiro128::{
    Xoshiro128, Xoshiro128plus, Xoshiro128plusplus, Xoshiro128starstar,
};
use lichtspiel::xoshiro::xoshiro256::{
    Xoshiro256, Xoshiro256plus, Xoshiro256plusplus, Xoshiro256starstar,
};
use lichtspiel::xoshiro::xoshiro512::{Xoshiro512, Xoshiro512plus};

#[test]
fn check_equality_plain() {
    let rngd = Xoshiro128::default();
    let rng1 = Xoshiro128::with(0);
    let rng2 = Xoshiro128::new([0, 0, 0, 0]);
    let rng3 = Xoshiro128::new([0, 2, 0, 0]);
    assert_eq!(rngd, rng1);
    assert_eq!(rng1, rng2);
    assert_ne!(rng2, rng3);
}

#[test]
fn check_equality_plus() {
    let rngd = Xoshiro128plus::default();
    let rng1 = Xoshiro128plus::with(0);
    let rng2 = Xoshiro128plus::new([0, 0, 0, 0]);
    let rng3 = Xoshiro128plus::new([0, 2, 0, 0]);
    assert_eq!(rngd, rng1);
    assert_eq!(rng1, rng2);
    assert_ne!(rng2, rng3);
}

#[test]
fn check_equality_plusplus() {
    let rngd = Xoshiro128plusplus::default();
    let rng1 = Xoshiro128plusplus::with(0);
    let rng2 = Xoshiro128plusplus::new([0, 0, 0, 0]);
    let rng3 = Xoshiro128plusplus::new([0, 2, 0, 0]);
    assert_eq!(rngd, rng1);
    assert_eq!(rng1, rng2);
    assert_ne!(rng2, rng3);
}

#[test]
fn check_equality_starstar() {
    let rngd = Xoshiro128starstar::default();
    let rng1 = Xoshiro128starstar::with(0);
    let rng2 = Xoshiro128starstar::new([0, 0, 0, 0]);
    let rng3 = Xoshiro128starstar::new([0, 2, 0, 0]);
    assert_eq!(rngd, rng1);
    assert_eq!(rng1, rng2);
    assert_ne!(rng2, rng3);
}

#[test]
fn check_first_5_plain() {
    let mut rng = Xoshiro128::with(1);
    assert_eq!(rng.random_u32(), 2433363436);
    assert_eq!(rng.random_u32(), 1579165405);
    assert_eq!(rng.random_u32(), 3641420295);
    assert_eq!(rng.random_u32(), 1912409410);
    assert_eq!(rng.random_u32(), 2331194017);
}

#[test]
fn xoshiro128_explicit_state_vectors() {
    let mut plain = Xoshiro128::new([1, 2, 3, 4]);
    assert_eq!(plain.random_u32(), 1);
    assert_eq!(plain.random_u32(), 7);
    assert_eq!(plain.random_u32(), 12295);

    let mut plus = Xoshiro128plus::new([1, 2, 3, 4]);
    assert_eq!(plus.random_u32(), 5);
    assert_eq!(plus.random_u32(), 12295);
    assert_eq!(plus.random_u32(), 25178119);

    let mut pp = Xoshiro128plusplus::new([1, 2, 3, 4]);
    assert_eq!(pp.random_u32(), 655361);
    assert_eq!(pp.random_u32(), 1611530247);
    assert_eq!(pp.random_u32(), 1611543303);

    let mut ss = Xoshiro128starstar::new([1, 2, 3, 4]);
    assert_eq!(ss.random_u32(), 11520);
    assert_eq!(ss.random_u32(), 0);
    assert_eq!(ss.random_u32(), 2977920);
}

#[test]
fn xoshiro256_explicit_state_vectors() {
    let mut plain = Xoshiro256::new([1, 2, 3, 4]);
    assert_eq!(plain.random_u64(), 0x1);
    assert_eq!(plain.random_u64(), 0x7);
    assert_eq!(plain.random_u64(), 0xc00000000007);

    let mut plus = Xoshiro256plus::new([1, 2, 3, 4]);
    assert_eq!(plus.random_u64(), 0x5);
    assert_eq!(plus.random_u64(), 0xc00000000007);
    assert_eq!(plus.random_u64(), 0xc00018000007);

    let mut pp = Xoshiro256plusplus::new([1, 2, 3, 4]);
    assert_eq!(pp.random_u64(), 0x2800001);
    assert_eq!(pp.random_u64(), 0x3800067);
    assert_eq!(pp.random_u64(), 0xcc00003800067);

    let mut ss = Xoshiro256starstar::new([1, 2, 3, 4]);
    assert_eq!(ss.random_u64(), 0x2d00);
    assert_eq!(ss.random_u64(), 0x0);
    assert_eq!(ss.random_u64(), 0x2d007080);
}

#[test]
fn xoshiro512_explicit_state_vectors() {
    let mut plain = Xoshiro512::new([1, 2, 3, 4, 5, 6, 7, 8]);
    assert_eq!(plain.random_u64(), 0x1);
    assert_eq!(plain.random_u64(), 0x6);
    assert_eq!(plain.random_u64(), 0x80d);

    let mut plus = Xoshiro512plus::new([1, 2, 3, 4, 5, 6, 7, 8]);
    assert_eq!(plus.random_u64(), 0x5);
    assert_eq!(plus.random_u64(), 0x7);
    assert_eq!(plus.random_u64(), 0x80d);
}

#[test]
fn xoshiro256_zero_state_is_repaired() {
    let zeroed = Xoshiro256plus::new([0, 0, 0, 0]);
    let seeded = Xoshiro256plus::with(0);
    assert_eq!(zeroed, seeded);
}

#[test]
fn xoshiro512_zero_state_is_repaired() {
    let zeroed = Xoshiro512::new([0; 8]);
    let seeded = Xoshiro512::with(0);
    assert_eq!(zeroed, seeded);
}
