use lichtspiel::xoroshiro::xoroshiro1024::Xoroshiro1024plus;
use lichtspiel::xoroshiro::xoroshiro128::{
    Xoroshiro128, Xoroshiro128plus, Xoroshiro128plusplus, Xoroshiro128star, Xoroshiro128starstar,
};
use lichtspiel::xoroshiro::xoroshiro64::{Xoroshiro64, Xoroshiro64star, Xoroshiro64starstar};

#[test]
fn xoroshiro64_explicit_state_vectors() {
    let mut plain = Xoroshiro64::new(1, 2);
    assert_eq!(plain.random_u32(), 0x1);
    assert_eq!(plain.random_u32(), 0x4000603);
    assert_eq!(plain.random_u32(), 0x8dc601b);

    let mut star = Xoroshiro64star::new(1, 2);
    assert_eq!(star.random_u32(), 0x9e3779bb);
    assert_eq!(star.random_u32(), 0x1380cf31);
    assert_eq!(star.random_u32(), 0xf233f6b9);

    let mut ss = Xoroshiro64starstar::new(1, 2);
    assert_eq!(ss.random_u32(), 0xe2ac153f);
    assert_eq!(ss.random_u32(), 0x30817eaa);
    assert_eq!(ss.random_u32(), 0x607a3436);
}

#[test]
fn xoroshiro128_explicit_state_vectors() {
    let mut plain = Xoroshiro128::new(1, 2);
    assert_eq!(plain.random_u64(), 0x1);
    assert_eq!(plain.random_u64(), 0x1030003);
    assert_eq!(plain.random_u64(), 0x61026302000003);

    let mut plus = Xoroshiro128plus::new(1, 2);
    assert_eq!(plus.random_u64(), 0x3);
    assert_eq!(plus.random_u64(), 0x6001030003);
    assert_eq!(plus.random_u64(), 0x20c102c302000c03);

    let mut pp = Xoroshiro128plusplus::new(1, 2);
    assert_eq!(pp.random_u64(), 0x60001);
    assert_eq!(pp.random_u64(), 0x260c000660007);
    assert_eq!(pp.random_u64(), 0x180acc04718606d3);

    let mut star = Xoroshiro128star::new(1, 2);
    assert_eq!(star.random_u64(), 0x9e3779b97f4a7c13);
    assert_eq!(star.random_u64(), 0x152358805187439);
    assert_eq!(star.random_u64(), 0x1f9e237da3df7439);

    let mut ss = Xoroshiro128starstar::new(1, 2);
    assert_eq!(ss.random_u64(), 0x1680);
    assert_eq!(ss.random_u64(), 0x16c3804380);
    assert_eq!(ss.random_u64(), 0x86b5b3ad00004380);
}

#[test]
fn xoroshiro128_u32_takes_high_half() {
    let mut a = Xoroshiro128::new(0x2b47fed8_8766bb05, 9);
    assert_eq!(a.random_u32(), 0x2b47fed8);
}

#[test]
fn xoroshiro1024_explicit_state_vectors() {
    let mut rng = Xoroshiro1024plus::new([1, 2, 3, 4, 5, 6, 7, 8, 9, 10, 11, 12, 13, 14, 15, 16]);
    assert_eq!(rng.random_u64(), 0x3);
    assert_eq!(rng.random_u64(), 0x30000003);
    assert_eq!(rng.random_u64(), 0x300000030000004);
}

#[test]
fn xoroshiro128_zero_state_is_repaired() {
    let zeroed = Xoroshiro128plus::new(0, 0);
    let seeded = Xoroshiro128plus::with(0);
    assert_eq!(zeroed, seeded);
    let mut a = Xoroshiro128plus::new(0, 0);
    let mut b = Xoroshiro128plus::with(0);
    for _ in 0..16 {
        assert_eq!(a.random_u64(), b.random_u64());
    }
}

#[test]
fn xoroshiro64_zero_state_is_repaired() {
    let mut zeroed = Xoroshiro64star::new(0, 0);
    let mut seeded = Xoroshiro64star::with(0);
    for _ in 0..16 {
        assert_eq!(zeroed.random_u32(), seeded.random_u32());
    }
}

#[test]
fn xoroshiro1024_zero_state_is_repaired() {
    let mut zeroed = Xoroshiro1024plus::new([0; 16]);
    let mut seeded = Xoroshiro1024plus::with(0);
    for _ in 0..40 {
        assert_eq!(zeroed.random_u64(), seeded.random_u64());
    }
}
