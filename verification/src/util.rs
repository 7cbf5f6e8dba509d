//! Splitting a 64-bit word into its 32-bit halves.

use vstd::prelude::*;

verus! {

/// The high 32 bits of a 64-bit word.
pub open spec fn spec_u64_high(num: u64) -> u32 {
    (num >> 32) as u32
}

/// The low 32 bits of a 64-bit word.
pub open spec fn spec_u64_low(num: u64) -> u32 {
    num as u32
}

/// Selects one half of a 64-bit word.
pub fn u64_to_u32(num: u64, from_high: bool) -> (r: u32)
    ensures
        r == if from_high { spec_u64_high(num) } else { spec_u64_low(num) },
{
    if from_high {
        (num >> 32) as u32
    } else {
        num as u32
    }
}

/// The high 32 bits of a 64-bit word.
pub fn u64_to_u32_high(num: u64) -> (r: u32)
    ensures
        r == spec_u64_high(num),
{
    u64_to_u32(num, true)
}

/// The low 32 bits of a 64-bit word.
pub fn u64_to_u32_low(num: u64) -> (r: u32)
    ensures
        r == spec_u64_low(num),
{
    u64_to_u32(num, false)
}

} // verus!
