//! Stateless avalanche finalizers over 16-, 32- and 64-bit words.
//!
//! Each mixer is a fixed five-step xorshift/multiply pipeline; a one-bit
//! change of the input flips about half the output bits.  The canonical
//! 32-bit mixer [`bitmix32`] and the canonical 64-bit mixer [`bitmix64s`]
//! have verified inverses, [`unmix32`] and [`unmix64s`], built from the
//! modular inverses of the multipliers.

use vstd::prelude::*;
use crate::scramble::{wmul32, wmul64};

verus! {

/// One 16-bit xorshift/multiply avalanche pass.
pub open spec fn spec_mix16(x: u16, s1: u16, m1: u16, s2: u16, m2: u16, s3: u16) -> u16 {
    let a = x ^ (x >> s1);
    let b = vstd::wrapping::u16_specs::wrapping_mul(a, m1);
    let c = b ^ (b >> s2);
    let d = vstd::wrapping::u16_specs::wrapping_mul(c, m2);
    d ^ (d >> s3)
}

/// One 32-bit xorshift/multiply avalanche pass.
pub open spec fn spec_mix32(x: u32, s1: u32, m1: u32, s2: u32, m2: u32, s3: u32) -> u32 {
    let a = x ^ (x >> s1);
    let b = wmul32(a, m1);
    let c = b ^ (b >> s2);
    let d = wmul32(c, m2);
    d ^ (d >> s3)
}

/// One 64-bit xorshift/multiply avalanche pass.
pub open spec fn spec_mix64(x: u64, s1: u64, m1: u64, s2: u64, m2: u64, s3: u64) -> u64 {
    let a = x ^ (x >> s1);
    let b = wmul64(a, m1);
    let c = b ^ (b >> s2);
    let d = wmul64(c, m2);
    d ^ (d >> s3)
}

/// The canonical 16-bit avalanche mix.
pub open spec fn spec_bitmix16(x: u16) -> u16 {
    spec_mix16(x, 8, 0xa3d3, 7, 0x4b2d, 9)
}

/// The canonical 32-bit avalanche mix.
pub open spec fn spec_bitmix32(x: u32) -> u32 {
    spec_mix32(x, 16, 0x21f0aaad, 15, 0xd35a2d97, 15)
}

/// Inverse of the canonical 32-bit mix: the xorshifts are undone by repeated
/// xor-folds and the multiplications by the multipliers' modular inverses.
pub open spec fn spec_unmix32(y: u32) -> u32 {
    let d = y ^ (y >> 15) ^ (y >> 30);
    let c = wmul32(d, 0x37132227);
    let b = c ^ (c >> 15) ^ (c >> 30);
    let a = wmul32(b, 0x333c4925);
    a ^ (a >> 16)
}

/// The prospector variant of the 32-bit mix.
pub open spec fn spec_bitmix32p(x: u32) -> u32 {
    spec_mix32(x, 16, 0x7feb352d, 15, 0x846ca68b, 16)
}

/// The murmur-style 32-bit mix.
pub open spec fn spec_murmurhash32(x: u32) -> u32 {
    spec_mix32(x, 16, 0x85ebca6b, 13, 0xc2b2ae35, 16)
}

/// The hash32 variant, one multiplier used twice.
pub open spec fn spec_hash32(x: u32) -> u32 {
    spec_mix32(x, 16, 0x045d9f3b, 16, 0x045d9f3b, 16)
}

/// The 64-bit mix with one repeated multiplier.
pub open spec fn spec_bitmix64(x: u64) -> u64 {
    spec_mix64(x, 32, 0xd6e8feb86659fd93, 32, 0xd6e8feb86659fd93, 32)
}

/// The canonical (splittable) 64-bit avalanche mix.
pub open spec fn spec_bitmix64s(x: u64) -> u64 {
    spec_mix64(x, 30, 0xbf58476d1ce4e5b9, 27, 0x94d049bb133111eb, 31)
}

/// Inverse of the canonical 64-bit mix.
pub open spec fn spec_unmix64s(y: u64) -> u64 {
    let d = y ^ (y >> 31) ^ (y >> 62);
    let c = wmul64(d, 0x319642b2d24d8ec3);
    let b = c ^ (c >> 27) ^ (c >> 54);
    let a = wmul64(b, 0x96de1b173f119089);
    a ^ (a >> 30) ^ (a >> 60)
}

/// Bitmix scrambling for hashing a u16.
pub fn bitmix16(num: u16) -> (r: u16)
    ensures
        r == spec_bitmix16(num),
{
    let mut x = num;
    x ^= x >> 8;
    x = x.wrapping_mul(0xa3d3);
    x ^= x >> 7;
    x = x.wrapping_mul(0x4b2d);
    x ^= x >> 9;
    x
}

/// Bitmix scrambling for hashing a u32; the canonical 32-bit finalizer.
pub fn bitmix32(num: u32) -> (r: u32)
    ensures
        r == spec_bitmix32(num),
{
    let mut x = num;
    x ^= x >> 16;
    x = x.wrapping_mul(0x21f0aaad);
    x ^= x >> 15;
    x = x.wrapping_mul(0xd35a2d97);
    x ^= x >> 15;
    x
}

/// Undoes [`bitmix32`].
pub fn unmix32(num: u32) -> (r: u32)
    ensures
        r == spec_unmix32(num),
{
    let mut x = num;
    x = x ^ (x >> 15) ^ (x >> 30);
    x = x.wrapping_mul(0x37132227);
    x = x ^ (x >> 15) ^ (x >> 30);
    x = x.wrapping_mul(0x333c4925);
    x ^= x >> 16;
    x
}

/// Bitmix scrambling for hashing a u32, prospector variant.
pub fn bitmix32p(num: u32) -> (r: u32)
    ensures
        r == spec_bitmix32p(num),
{
    let mut x = num;
    x ^= x >> 16;
    x = x.wrapping_mul(0x7feb352d);
    x ^= x >> 15;
    x = x.wrapping_mul(0x846ca68b);
    x ^= x >> 16;
    x
}

/// Bitmix scrambling for hashing a u32, murmurhash variant.
pub fn murmurhash32(num: u32) -> (r: u32)
    ensures
        r == spec_murmurhash32(num),
{
    let mut x = num;
    x ^= x >> 16;
    x = x.wrapping_mul(0x85ebca6b);
    x ^= x >> 13;
    x = x.wrapping_mul(0xc2b2ae35);
    x ^= x >> 16;
    x
}

/// Bitmix scrambling for hashing a u32, hash32 variant.
pub fn hash32(num: u32) -> (r: u32)
    ensures
        r == spec_hash32(num),
{
    let mut x = num;
    x ^= x >> 16;
    x = x.wrapping_mul(0x045d9f3b);
    x ^= x >> 16;
    x = x.wrapping_mul(0x045d9f3b);
    x ^= x >> 16;
    x
}

/// Bitmix scrambling for hashing a u64.
pub fn bitmix64(num: u64) -> (r: u64)
    ensures
        r == spec_bitmix64(num),
{
    let mut x = num;
    x ^= x >> 32;
    x = x.wrapping_mul(0xd6e8feb86659fd93);
    x ^= x >> 32;
    x = x.wrapping_mul(0xd6e8feb86659fd93);
    x ^= x >> 32;
    x
}

/// Bitmix scrambling for hashing a u64, splittable variant; the canonical
/// 64-bit finalizer.
pub fn bitmix64s(num: u64) -> (r: u64)
    ensures
        r == spec_bitmix64s(num),
{
    let mut x = num;
    x ^= x >> 30;
    x = x.wrapping_mul(0xbf58476d1ce4e5b9);
    x ^= x >> 27;
    x = x.wrapping_mul(0x94d049bb133111eb);
    x ^= x >> 31;
    x
}

/// Undoes [`bitmix64s`].
pub fn unmix64s(num: u64) -> (r: u64)
    ensures
        r == spec_unmix64s(num),
{
    let mut x = num;
    x = x ^ (x >> 31) ^ (x >> 62);
    x = x.wrapping_mul(0x319642b2d24d8ec3);
    x = x ^ (x >> 27) ^ (x >> 54);
    x = x.wrapping_mul(0x96de1b173f119089);
    x = x ^ (x >> 30) ^ (x >> 60);
    x
}

/// The canonical 32-bit finalizer is a bijection: undoing its steps in
/// reverse recovers every input exactly.
pub proof fn lemma_unmix32_roundtrip(x: u32)
    ensures
        spec_unmix32(spec_bitmix32(x)) == x,
{
    let a = x ^ (x >> 16);
    let b = wmul32(a, 0x21f0aaad);
    let c = b ^ (b >> 15);
    let d = wmul32(c, 0xd35a2d97);
    let y = d ^ (d >> 15);
    assert(y ^ (y >> 15) ^ (y >> 30) == d) by (bit_vector)
        requires
            y == d ^ (d >> 15),
    ;
    assert(wmul32(wmul32(c, 0xd35a2d97), 0x37132227) == c) by (bit_vector);
    assert(c ^ (c >> 15) ^ (c >> 30) == b) by (bit_vector)
        requires
            c == b ^ (b >> 15),
    ;
    assert(wmul32(wmul32(a, 0x21f0aaad), 0x333c4925) == a) by (bit_vector);
    assert(a ^ (a >> 16) == x) by (bit_vector)
        requires
            a == x ^ (x >> 16),
    ;
}

/// The canonical 64-bit finalizer is a bijection: undoing its steps in
/// reverse recovers every input exactly.
pub proof fn lemma_unmix64s_roundtrip(x: u64)
    ensures
        spec_unmix64s(spec_bitmix64s(x)) == x,
{
    let a = x ^ (x >> 30);
    let b = wmul64(a, 0xbf58476d1ce4e5b9);
    let c = b ^ (b >> 27);
    let d = wmul64(c, 0x94d049bb133111eb);
    let y = d ^ (d >> 31);
    assert(y ^ (y >> 31) ^ (y >> 62) == d) by (bit_vector)
        requires
            y == d ^ (d >> 31),
    ;
    assert(wmul64(wmul64(c, 0x94d049bb133111eb), 0x319642b2d24d8ec3) == c) by (bit_vector);
    assert(c ^ (c >> 27) ^ (c >> 54) == b) by (bit_vector)
        requires
            c == b ^ (b >> 27),
    ;
    assert(wmul64(wmul64(a, 0xbf58476d1ce4e5b9), 0x96de1b173f119089) == a) by (bit_vector);
    assert(a ^ (a >> 30) ^ (a >> 60) == x) by (bit_vector)
        requires
            a == x ^ (x >> 30),
    ;
}

} // verus!
