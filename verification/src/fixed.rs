//! Fixed-point numbers.
//!
//! Every quantity of the simulation (a length in pixels, an angle in radians,
//! a hue in degrees, a percentage, a plain ratio) is an `i64` that counts
//! millionths of its unit.

use vstd::prelude::*;

verus! {

/// The fixed-point number one: a million steps.
pub const UNIT: i64 = 1_000_000;

/// `n / d` rounded toward zero, for a positive `d`.
pub open spec fn toward_zero(n: int, d: int) -> int {
    if n >= 0 {
        n / d
    } else {
        -((-n) / d)
    }
}

/// The product of two fixed-point numbers, rounded toward zero.
pub open spec fn scaled(a: int, b: int) -> int {
    toward_zero(a * b, UNIT as int)
}

/// A factor of magnitude at most one never enlarges what it scales.
pub proof fn lemma_scaled_within(a: int, b: int)
    requires
        -UNIT <= a <= UNIT,
        0 <= b,
    ensures
        -b <= scaled(a, b) <= b,
{
    assert(-(UNIT * b) <= a * b <= UNIT * b) by (nonlinear_arith)
        requires
            -UNIT <= a <= UNIT,
            0 <= b,
    ;
}

/// Multiplies two fixed-point numbers, rounding toward zero.
pub fn scale(a: i64, b: i64) -> (product: i64)
    requires
        i64::MIN <= scaled(a as int, b as int) <= i64::MAX,
    ensures
        product == scaled(a as int, b as int),
{
    assert(-0x4000_0000_0000_0000_0000_0000_0000_0000 <= a * b
        <= 0x4000_0000_0000_0000_0000_0000_0000_0000) by (nonlinear_arith)
        requires
            -0x8000_0000_0000_0000 <= a <= 0x8000_0000_0000_0000,
            -0x8000_0000_0000_0000 <= b <= 0x8000_0000_0000_0000,
    ;
    let wide: i128 = (a as i128) * (b as i128);
    let quotient: i128 = wide / (UNIT as i128);
    quotient as i64
}

} // verus!
