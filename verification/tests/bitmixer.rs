use lichtspiel::bitmixer::{
    bitmix16, bitmix32, bitmix32p, bitmix64, bitmix64s, hash32, murmurhash32, unmix32, unmix64s,
};

#[test]
fn is_different32() {
    let num = 42_u32;
    let result = bitmix32(num);

    assert_ne!(num, result);
}

#[test]
fn is_different64() {
    let num = 42_u64;
    let result = bitmix64s(num);

    assert_ne!(num, result);
}

#[test]
fn mixers_match_reference_values() {
    assert_eq!(bitmix16(42), 0x728a);
    assert_eq!(bitmix32(42), 3892947654);
    assert_eq!(bitmix32p(42), 0x1727_33c2);
    assert_eq!(murmurhash32(42), 0x087f_cd5c);
    assert_eq!(hash32(42), 0xf733_caf5);
    assert_eq!(bitmix64(42), 0x63eb_4d09_0e3c_46f3);
    assert_eq!(bitmix64s(42), 0xa759_ea27_d472_7622);
}

#[test]
fn unmix32_round_trips() {
    for &x in [0u32, 1, 42, 0xdead_beef, u32::MAX, u32::MAX / 2].iter() {
        assert_eq!(unmix32(bitmix32(x)), x);
        if x != 0 {
            assert_ne!(bitmix32(x), x);
        }
    }
}

#[test]
fn unmix64s_round_trips() {
    for &x in [0u64, 1, 42, 0xdead_beef_cafe_f00d, u64::MAX, u64::MAX / 2].iter() {
        assert_eq!(unmix64s(bitmix64s(x)), x);
        if x != 0 {
            assert_ne!(bitmix64s(x), x);
        }
    }
}
