//! Bit rotations, each stated as a spec function and computed with shifts.
use vstd::prelude::*;

verus! {

/// `x` rotated right by `r` bit positions, for `r < 32`.
pub open spec fn rotr32_spec(x: u32, r: u32) -> u32 {
    if r == 0 {
        x
    } else {
        (x >> r) | (x << ((32 - r) as u32))
    }
}

/// `x` rotated right by `r` bit positions, for `r < 64`.
pub open spec fn rotr64_spec(x: u64, r: u32) -> u64 {
    if r == 0 {
        x
    } else {
        (x >> r) | (x << ((64 - r) as u32))
    }
}

/// `x` rotated left by `r` bit positions, for `0 < r < 32`.
pub open spec fn rotl32_spec(x: u32, r: u32) -> u32 {
    (x << r) | (x >> ((32 - r) as u32))
}

/// `x` rotated left by `r` bit positions, for `0 < r < 64`.
pub open spec fn rotl64_spec(x: u64, r: u32) -> u64 {
    (x << r) | (x >> ((64 - r) as u32))
}

pub fn rotr32(x: u32, r: u32) -> (y: u32)
    requires
        r < 32,
    ensures
        y == rotr32_spec(x, r),
{
    if r == 0 {
        x
    } else {
        (x >> r) | (x << (32 - r))
    }
}

pub fn rotr64(x: u64, r: u32) -> (y: u64)
    requires
        r < 64,
    ensures
        y == rotr64_spec(x, r),
{
    if r == 0 {
        x
    } else {
        (x >> r) | (x << (64 - r))
    }
}

pub fn rotl32(x: u32, r: u32) -> (y: u32)
    requires
        0 < r < 32,
    ensures
        y == rotl32_spec(x, r),
{
    (x << r) | (x >> (32 - r))
}

pub fn rotl64(x: u64, r: u32) -> (y: u64)
    requires
        0 < r < 64,
    ensures
        y == rotl64_spec(x, r),
{
    (x << r) | (x >> (64 - r))
}

} // verus!
