//! Integer helpers for covering a grid of cells with fixed-size tiles.
use vstd::prelude::*;

verus! {

/// The quotient `a / b` rounded towards positive infinity.
pub open spec fn ceil_div(a: int, b: int) -> int {
    a / b + if a % b == 0 { 0int } else { 1int }
}

/// `ceil_div(a, b)` tiles of width `b` cover `a` cells, and one tile fewer does not.
pub proof fn lemma_ceil_div_covers(a: int, b: int)
    requires
        a >= 0,
        b > 0,
    ensures
        ceil_div(a, b) >= 0,
        ceil_div(a, b) * b >= a,
        (ceil_div(a, b) - 1) * b < a || a == 0,
        ceil_div(a, b) * b < a + b,
{
    let q = a / b;
    let r = a % b;
    assert(a == q * b + r && 0 <= r < b) by (nonlinear_arith)
        requires
            b > 0,
            q == a / b,
            r == a % b,
    ;
    assert(q >= 0) by (nonlinear_arith)
        requires
            a >= 0,
            b > 0,
            q == a / b,
    ;
    if r == 0 {
        assert(ceil_div(a, b) * b == q * b);
        assert((q - 1) * b == q * b - b) by (nonlinear_arith);
    } else {
        assert((q + 1) * b == q * b + b) by (nonlinear_arith);
        assert(ceil_div(a, b) * b == q * b + b);
    }
}

/// Number of tiles of width `b` needed to cover `a` cells (`u32::div_ceil`).
pub fn div_ceil(a: u32, b: u32) -> (r: u32)
    requires
        b > 0,
    ensures
        r == ceil_div(a as int, b as int),
{
    let q = a / b;
    if a % b == 0 {
        q
    } else {
        proof {
            assert(q * b <= a) by (nonlinear_arith)
                requires
                    b > 0,
                    q == a / b,
                    a >= 0,
            ;
            assert(q < 0xffff_ffff) by (nonlinear_arith)
                requires
                    b > 0,
                    q == a / b,
                    a % b != 0,
                    0 <= a <= 0xffff_ffff,
            ;
        }
        q + 1
    }
}

} // verus!
