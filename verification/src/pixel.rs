//! Whole-pixel quantities.
//!
//! Every length and coordinate of the grid is an `i64` number of pixels. A result
//! that would leave that range stays at the end of the range it crossed.

use vstd::prelude::*;

verus! {

/// `v` held inside the range of `i64`.
pub open spec fn saturate(v: int) -> int {
    if v < i64::MIN {
        i64::MIN as int
    } else if v > i64::MAX {
        i64::MAX as int
    } else {
        v
    }
}

/// Narrows a wide intermediate result to a pixel quantity.
pub fn saturate_i128(v: i128) -> (r: i64)
    ensures
        r == saturate(v as int),
{
    if v < i64::MIN as i128 {
        i64::MIN
    } else if v > i64::MAX as i128 {
        i64::MAX
    } else {
        v as i64
    }
}

/// `count` steps of `size` pixels and `extra` pixels more.
pub open spec fn span(count: int, size: int, extra: int) -> int {
    saturate(count * size + extra)
}

/// Computes [`span`].
pub fn span_of(count: u64, size: u32, extra: u32) -> (r: i64)
    ensures
        r == span(count as int, size as int, extra as int),
        r >= 0,
{
    let n: i128 = count as i128;
    let s: i128 = size as i128;
    assert(0 <= n * s <= 0x1_0000_0000_0000_0000_0000_0000) by (nonlinear_arith)
        requires
            0 <= n <= 0x1_0000_0000_0000_0000,
            0 <= s <= 0x1_0000_0000,
    ;
    saturate_i128(n * s + extra as i128)
}

} // verus!
