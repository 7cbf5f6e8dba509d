use lichtspiel::util::{u64_to_u32, u64_to_u32_high, u64_to_u32_low};

#[test]
fn util_from_high_to_low_works() {
    let num = 0x2b47fed88766bb05_u64;
    let h = u64_to_u32_high(num);
    let l = u64_to_u32_low(num);
    assert_eq!(h, 0x2b47fed8);
    assert_eq!(l, 0x8766bb05);
}

#[test]
fn util_split_selects_the_half() {
    let num = 0x0123456789abcdef_u64;
    assert_eq!(u64_to_u32(num, true), 0x01234567);
    assert_eq!(u64_to_u32(num, false), 0x89abcdef);
}
