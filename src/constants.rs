//! Constants of the chip's frequency formulas.
use vstd::prelude::*;

verus! {

/// 10^6, the factor of a crystal offset given in ppm.
pub const PPM_FACTOR: i32 = 1000000;

/// 2^18, the divider of the crystal frequency in the offset formula.
pub const F_OFFSET_DIVIDER: i32 = 262144;

/// Crystal frequencies above this one drive the chip through its clock divider.
pub const DOUBLE_XTAL_THR: u32 = 30_000_000;

/// The usual crystal frequency of evaluation boards.
pub const XTAL_FREQUENCY_50MHZ: u32 = 50_000_000;

/// 2^18, the divider of the crystal frequency in the base frequency formula.
pub const FBASE_DIVIDER: i32 = 262_144;

/// Division that rounds toward zero, as the machine division of signed integers does.
pub open spec fn trunc_div(a: int, b: int) -> int {
    if a >= 0 {
        a / b
    } else {
        -((-a) / b)
    }
}

/// Lowest frequency offset register value for a crystal of `f_xo` Hz.
pub fn f_offset_lower_limit(f_xo: i32) -> (r: i32)
    requires
        f_xo > i32::MIN,
    ensures
        r == trunc_div(-f_xo, F_OFFSET_DIVIDER as int) * 2048,
{
    let q: i32 = if f_xo <= 0 {
        (-f_xo) / F_OFFSET_DIVIDER
    } else {
        -(f_xo / F_OFFSET_DIVIDER)
    };
    q * 2048
}

/// Highest frequency offset register value for a crystal of `f_xo` Hz.
pub fn f_offset_upper_limit(f_xo: i32) -> (r: i32)
    ensures
        r == trunc_div(f_xo as int, F_OFFSET_DIVIDER as int) * 2047,
{
    let q: i32 = if f_xo >= 0 {
        f_xo / F_OFFSET_DIVIDER
    } else {
        -((-(f_xo as i64)) / (F_OFFSET_DIVIDER as i64)) as i32
    };
    q * 2047
}

} // verus!
