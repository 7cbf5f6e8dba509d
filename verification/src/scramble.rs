//! Rotations, wrap-around arithmetic, and the output scramblers shared by the
//! xoshiro/xoroshiro family.

use vstd::prelude::*;

verus! {

/// Wrap-around addition of two 32-bit words.
pub open spec fn wadd32(a: u32, b: u32) -> u32 {
    vstd::wrapping::u32_specs::wrapping_add(a, b)
}

/// Wrap-around multiplication of two 32-bit words.
pub open spec fn wmul32(a: u32, b: u32) -> u32 {
    vstd::wrapping::u32_specs::wrapping_mul(a, b)
}

/// Wrap-around addition of two 64-bit words.
pub open spec fn wadd64(a: u64, b: u64) -> u64 {
    vstd::wrapping::u64_specs::wrapping_add(a, b)
}

/// Wrap-around multiplication of two 64-bit words.
pub open spec fn wmul64(a: u64, b: u64) -> u64 {
    vstd::wrapping::u64_specs::wrapping_mul(a, b)
}

/// Rotation of a 32-bit word left by `r` places.
pub open spec fn spec_rotl32(x: u32, r: u32) -> u32 {
    let sh = r % 32;
    if sh == 0 {
        x
    } else {
        (x << sh) | (x >> ((32 - sh) as u32))
    }
}

/// Rotation of a 64-bit word left by `r` places.
pub open spec fn spec_rotl64(x: u64, r: u64) -> u64 {
    let sh = r % 64;
    if sh == 0 {
        x
    } else {
        (x << sh) | (x >> ((64 - sh) as u64))
    }
}

/// Rotation of a 64-bit word right by `r` places.
pub open spec fn spec_rotr64(x: u64, r: u64) -> u64 {
    let sh = r % 64;
    if sh == 0 {
        x
    } else {
        (x >> sh) | (x << ((64 - sh) as u64))
    }
}

/// Rotates a 32-bit word left, any rotation count taken modulo the width.
pub fn rotl32(x: u32, r: u32) -> (o: u32)
    ensures
        o == spec_rotl32(x, r),
{
    let sh = r % 32;
    if sh == 0 {
        x
    } else {
        (x << sh) | (x >> (32 - sh))
    }
}

/// Rotates a 64-bit word left, any rotation count taken modulo the width.
pub fn rotl64(x: u64, r: u64) -> (o: u64)
    ensures
        o == spec_rotl64(x, r),
{
    let sh = r % 64;
    if sh == 0 {
        x
    } else {
        (x << sh) | (x >> (64 - sh))
    }
}

/// Rotates a 64-bit word right, any rotation count taken modulo the width.
pub fn rotr64(x: u64, r: u64) -> (o: u64)
    ensures
        o == spec_rotr64(x, r),
{
    let sh = r % 64;
    if sh == 0 {
        x
    } else {
        (x >> sh) | (x << (64 - sh))
    }
}

} // verus!
