//! Integer sine for the wave text effect.
//!
//! Angles are whole degrees in `[0, 360)` and results are thousandths
//! (a value in `[-1000, 1000]`), so the whole animation model stays in
//! integer arithmetic.  On `[0, 180]` the sine is Bhaskara's rational
//! approximation `4000 * d * (180 - d) / (40500 - d * (180 - d))`, which is
//! exact at 0, 30, 90, 150 and 180 degrees; the second half circle is its
//! mirror image.

use vstd::prelude::*;

verus! {

/// One full turn, in degrees.
pub const FULL_TURN: u32 = 360;

/// Bhaskara's sine approximation in thousandths, for `d` in `[0, 180]`.
pub open spec fn spec_half_sine_mille(d: int) -> int
    recommends
        0 <= d <= 180,
{
    4000 * (d * (180 - d)) / (40500 - d * (180 - d))
}

/// Sine of `d` degrees in thousandths, for `d` in `[0, 360)`.
pub open spec fn spec_sine_mille(d: int) -> int
    recommends
        0 <= d < 360,
{
    if d <= 180 {
        spec_half_sine_mille(d)
    } else {
        -spec_half_sine_mille(d - 180)
    }
}

/// The arch `d * (180 - d)` stays within `[0, 8100]` on `[0, 180]`.
proof fn lemma_arch_bounds(d: int)
    requires
        0 <= d <= 180,
    ensures
        0 <= d * (180 - d) <= 8100,
{
    assert(0 <= d * (180 - d) <= 8100) by (nonlinear_arith)
        requires
            0 <= d <= 180,
    ;
}

/// The half-circle sine stays within `[0, 1000]`.
proof fn lemma_half_sine_bounds(d: int)
    requires
        0 <= d <= 180,
    ensures
        0 <= spec_half_sine_mille(d) <= 1000,
{
    lemma_arch_bounds(d);
    let t = d * (180 - d);
    assert(0 <= 4000 * t / (40500 - t) <= 1000) by (nonlinear_arith)
        requires
            0 <= t <= 8100,
    ;
}

/// The sine stays within `[-1000, 1000]` over the whole circle.
pub proof fn lemma_sine_bounds(d: int)
    requires
        0 <= d < 360,
    ensures
        -1000 <= spec_sine_mille(d) <= 1000,
{
    if d <= 180 {
        lemma_half_sine_bounds(d);
    } else {
        lemma_half_sine_bounds(d - 180);
    }
}

/// Sine of `d` degrees in thousandths.
pub fn sine_mille(d: u32) -> (r: i32)
    requires
        d < 360,
    ensures
        r == spec_sine_mille(d as int),
        -1000 <= r <= 1000,
{
    proof {
        lemma_sine_bounds(d as int);
    }
    if d <= 180 {
        proof {
            lemma_arch_bounds(d as int);
        }
        let t: u32 = d * (180 - d);
        ((4000 * t) / (40500 - t)) as i32
    } else {
        let e: u32 = d - 180;
        proof {
            lemma_arch_bounds(e as int);
        }
        let t: u32 = e * (180 - e);
        -(((4000 * t) / (40500 - t)) as i32)
    }
}

} // verus!
