use lichtspiel::raw::r64;

#[test]
fn roundtrip_u64() {
    let start = 9383u64;
    let rt = u64::from(r64::from(start));
    assert_eq!(start, rt)
}

#[test]
fn no_roundtrip_u32() {
    let start = 8278u32;
    let rt = u32::from(r64::from(start));
    assert_ne!(start, rt);
    assert_eq!(rt, 0);
}

#[test]
fn u32_conversion_takes_high_bits() {
    let raw = r64::from(0x2b47fed8_8766bb05_u64);
    assert_eq!(u32::from(raw), 0x2b47fed8);
}
