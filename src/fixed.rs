//! Fixed-point arithmetic with three decimal places.
use vstd::prelude::*;

verus! {

/// `x · y` for two fixed-point numbers, rounded toward zero.
pub open spec fn mul_fx(x: int, y: int) -> int {
    let p = x * y;
    if p >= 0 {
        p / 1000
    } else {
        -((-p) / 1000)
    }
}

/// `x` limited to `[lo, hi]`.
pub open spec fn clamp(x: int, lo: int, hi: int) -> int {
    if x > hi {
        hi
    } else if x < lo {
        lo
    } else {
        x
    }
}

/// Rounding toward zero commutes with negation.
pub proof fn lemma_mul_fx_neg(x: int, y: int)
    ensures
        mul_fx(-x, y) == -mul_fx(x, y),
{
    assert((-x) * y == -(x * y)) by (nonlinear_arith);
}

/// The product is no larger in size than the product of the bounds.
pub proof fn lemma_mul_fx_bound(x: int, y: int, bx: int, by: int)
    requires
        -bx <= x <= bx,
        -by <= y <= by,
    ensures
        -(bx * by) <= mul_fx(x, y) <= bx * by,
{
    assert(-(bx * by) <= x * y <= bx * by) by (nonlinear_arith)
        requires
            -bx <= x <= bx,
            -by <= y <= by,
    ;
}

/// Product of two fixed-point numbers, rounded toward zero.
pub fn mul_fixed(x: i64, y: i64) -> (r: i128)
    ensures
        r == mul_fx(x as int, y as int),
{
    proof {
        assert(-0x4000_0000_0000_0000_0000_0000_0000_0000 <= (x as int) * (y as int)
            <= 0x4000_0000_0000_0000_0000_0000_0000_0000) by (nonlinear_arith)
            requires
                -0x8000_0000_0000_0000 <= x <= 0x8000_0000_0000_0000,
                -0x8000_0000_0000_0000 <= y <= 0x8000_0000_0000_0000,
        ;
    }
    let p = (x as i128) * (y as i128);
    if p >= 0 {
        p / 1000
    } else {
        -((-p) / 1000)
    }
}

/// `x` limited to `[lo, hi]`.
pub fn clamp_i32(x: i128, lo: i32, hi: i32) -> (r: i32)
    requires
        lo <= hi,
    ensures
        r == clamp(x as int, lo as int, hi as int),
{
    if x > hi as i128 {
        hi
    } else if x < lo as i128 {
        lo
    } else {
        x as i32
    }
}

} // verus!
