//! Fitting signed 32-bit values into the narrower column types of the
//! item table.
use vstd::prelude::*;

verus! {

/// `v` limited to the range `lo ..= hi`.
pub open spec fn spec_clamp(v: int, lo: int, hi: int) -> int {
    if v < lo {
        lo
    } else if v > hi {
        hi
    } else {
        v
    }
}

/// The smaller of two words.
pub open spec fn spec_min(a: u32, b: u32) -> u32 {
    if a < b {
        a
    } else {
        b
    }
}

/// `v` limited to `0 ..= 255`.
pub fn u8_clamp_from_i32(v: i32) -> (r: u8)
    ensures
        r as int == spec_clamp(v as int, 0, 255),
{
    if v <= 0 {
        0
    } else if v >= 255 {
        255
    } else {
        v as u8
    }
}

/// `v` limited to `0 ..= 65535`.
pub fn u16_clamp_from_i32(v: i32) -> (r: u16)
    ensures
        r as int == spec_clamp(v as int, 0, 65535),
{
    if v <= 0 {
        0
    } else if v >= 65535 {
        65535
    } else {
        v as u16
    }
}

/// `v` limited to `-32768 ..= 32767`.
pub fn i16_clamp_from_i32(v: i32) -> (r: i16)
    ensures
        r as int == spec_clamp(v as int, -32768, 32767),
{
    if v < -32768 {
        -32768
    } else if v > 32767 {
        32767
    } else {
        v as i16
    }
}

/// The smaller of two words (`u32::min`).
pub fn min_u32(a: u32, b: u32) -> (r: u32)
    ensures
        r == spec_min(a, b),
{
    if a < b {
        a
    } else {
        b
    }
}

} // verus!
