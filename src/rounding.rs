use vstd::prelude::*;

verus! {

/// The integer nearest to `n / d` (for `d > 0`), halves rounded away from zero.
pub open spec fn round_div(n: int, d: int) -> int
    recommends
        d > 0,
{
    if n >= 0 {
        (2 * n + d) / (2 * d)
    } else {
        -((2 * (-n) + d) / (2 * d))
    }
}

/// A rounded quotient stays between integer bounds that the exact quotient respects.
pub proof fn lemma_round_div_bounds(n: int, d: int, lo: int, hi: int)
    requires
        d > 0,
        lo * d <= n <= hi * d,
    ensures
        lo <= round_div(n, d) <= hi,
{
    if n >= 0 {
        let q = (2 * n + d) / (2 * d);
        assert(0 <= q) by (nonlinear_arith)
            requires n >= 0, d > 0, q == (2 * n + d) / (2 * d);
        if hi < 0 {
            assert(hi * d < 0) by (nonlinear_arith) requires hi < 0, d > 0;
        }
        assert(q <= hi) by (nonlinear_arith)
            requires n <= hi * d, d > 0, q == (2 * n + d) / (2 * d), n >= 0;
        if lo > 0 {
            assert(q >= lo) by (nonlinear_arith)
                requires lo * d <= n, d > 0, q == (2 * n + d) / (2 * d), lo > 0;
        }
    } else {
        let m = -n;
        let q = (2 * m + d) / (2 * d);
        assert(0 <= q) by (nonlinear_arith)
            requires m > 0, d > 0, q == (2 * m + d) / (2 * d);
        if lo > 0 {
            assert(lo * d > 0) by (nonlinear_arith) requires lo > 0, d > 0;
        }
        assert((-lo) * d == -(lo * d)) by (nonlinear_arith);
        assert((-hi) * d == -(hi * d)) by (nonlinear_arith);
        assert(q <= -lo) by (nonlinear_arith)
            requires m <= (-lo) * d, d > 0, q == (2 * m + d) / (2 * d), m > 0;
        if hi < 0 {
            assert(q >= -hi) by (nonlinear_arith)
                requires (-hi) * d <= m, d > 0, q == (2 * m + d) / (2 * d), hi < 0;
        }
    }
}

/// Rounded division of machine integers, as `round_div` states it.
pub fn round_div_i128(n: i128, d: i128) -> (r: i128)
    requires
        d > 0,
        -0x1000_0000_0000_0000_0000_0000_0000 <= n <= 0x1000_0000_0000_0000_0000_0000_0000,
        d <= 0x1000_0000_0000_0000_0000_0000_0000,
    ensures
        r == round_div(n as int, d as int),
{
    proof {
        if n >= 0 {
            assert((2 * n + d) / (2 * d) <= 2 * n + d) by (nonlinear_arith)
                requires n >= 0, d > 0;
        } else {
            assert((2 * (-n) + d) / (2 * d) <= 2 * (-n) + d) by (nonlinear_arith)
                requires n < 0, d > 0;
            assert((2 * (-n) + d) / (2 * d) >= 0) by (nonlinear_arith)
                requires n < 0, d > 0;
        }
    }
    if n >= 0 {
        (2 * n + d) / (2 * d)
    } else {
        -((2 * (-n) + d) / (2 * d))
    }
}

} // verus!
