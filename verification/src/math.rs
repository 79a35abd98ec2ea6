//! Integer arithmetic of the bonding curve: the curve constant, the integer
//! square root and the fixed-point quotient that the program takes from the
//! `fixed` crate, and the burn adjustments of a stake amount.

use vstd::prelude::*;
use fixed::types::{U128F0, U64F64};

verus! {

/// The inverse of the curve constant `k` in `collateral = k * tokens^2`.
pub const K_DIV: u128 = 30000000000000000;

/// `r` is the integer square root of `n`: the largest integer whose square
/// does not exceed `n`.
pub open spec fn is_isqrt(r: int, n: int) -> bool {
    &&& 0 <= r
    &&& r * r <= n
    &&& n < (r + 1) * (r + 1)
}

/// The integer square root of `n`.
pub open spec fn isqrt(n: int) -> int {
    choose|r: int| is_isqrt(r, n)
}

/// Two integer square roots of the same number are equal.
pub proof fn lemma_isqrt_unique(r1: int, r2: int, n: int)
    requires
        is_isqrt(r1, n),
        is_isqrt(r2, n),
    ensures
        r1 == r2,
{
    if r1 < r2 {
        assert((r1 + 1) * (r1 + 1) <= r2 * r2) by (nonlinear_arith)
            requires
                0 <= r1,
                r1 + 1 <= r2,
        ;
    } else if r2 < r1 {
        assert((r2 + 1) * (r2 + 1) <= r1 * r1) by (nonlinear_arith)
            requires
                0 <= r2,
                r2 + 1 <= r1,
        ;
    }
}

/// Any integer square root of `n` is `isqrt(n)`.
pub proof fn lemma_isqrt_is(r: int, n: int)
    requires
        is_isqrt(r, n),
    ensures
        isqrt(n) == r,
{
    assert(is_isqrt(isqrt(n), n));
    lemma_isqrt_unique(isqrt(n), r, n);
}

/// Every natural number has an integer square root.
pub proof fn lemma_isqrt_exists(n: int)
    requires
        0 <= n,
    ensures
        is_isqrt(isqrt(n), n),
    decreases n,
{
    if n == 0 {
        assert(is_isqrt(0, 0));
    } else {
        lemma_isqrt_exists(n - 1);
        let r = isqrt(n - 1);
        if (r + 1) * (r + 1) <= n {
            assert(n < (r + 2) * (r + 2)) by (nonlinear_arith)
                requires
                    n - 1 < (r + 1) * (r + 1),
                    0 <= r,
            ;
            assert(is_isqrt(r + 1, n));
        } else {
            assert(is_isqrt(r, n));
        }
    }
}

/// The integer square root does not decrease.
pub proof fn lemma_isqrt_monotone(n1: int, n2: int)
    requires
        0 <= n1 <= n2,
    ensures
        isqrt(n1) <= isqrt(n2),
{
    lemma_isqrt_exists(n1);
    lemma_isqrt_exists(n2);
    let r1 = isqrt(n1);
    let r2 = isqrt(n2);
    if r1 > r2 {
        assert((r2 + 1) * (r2 + 1) <= r1 * r1) by (nonlinear_arith)
            requires
                0 <= r2,
                r2 + 1 <= r1,
        ;
    }
}

/// The integer square root of a number below 2^128 is below 2^64.
pub proof fn lemma_isqrt_fits_u64(n: int)
    requires
        0 <= n <= u128::MAX,
    ensures
        0 <= isqrt(n) <= u64::MAX,
{
    lemma_isqrt_exists(n);
    let r = isqrt(n);
    if r > u64::MAX {
        assert(r * r > u128::MAX) by (nonlinear_arith)
            requires
                r >= 0x1_0000_0000_0000_0000int,
        ;
    }
}

/// The integer square root of a positive number is positive.
pub proof fn lemma_isqrt_positive(n: int)
    requires
        1 <= n,
    ensures
        1 <= isqrt(n),
{
    lemma_isqrt_exists(n);
}

/// Calls `FixedU128::<U0>::sqrt` of the `fixed` crate on `n` and converts the
/// result with `to_num::<u64>`. The crate documents that the square root is
/// rounded down with an error below `DELTA`, which is 1 for a type without
/// fractional bits, so the result `r` satisfies `r * r <= n < (r + 1) * (r + 1)`;
/// that result is below 2^64, so the conversion keeps it.
#[verifier::external_body]
fn fixed_sqrt_floor(n: u128) -> (r: u64)
    ensures
        is_isqrt(r as int, n as int),
{
    U128F0::from_num(n).sqrt().to_num::<u64>()
}

/// The integer square root of `n`, computed with the `fixed` crate.
pub fn integer_sqrt(n: u128) -> (r: u64)
    ensures
        r == isqrt(n as int),
{
    let r = fixed_sqrt_floor(n);
    proof {
        lemma_isqrt_is(r as int, n as int);
    }
    r
}

/// Calls `FixedU128::<U64>::checked_div` of the `fixed` crate on the two
/// operands converted with `from_num`, and converts the quotient back with
/// `to_num::<u64>`. The division keeps 64 fractional bits, truncating, and the
/// conversion drops them, so the result is the quotient rounded down; the
/// divisor is not zero and the quotient does not exceed the numerator, so the
/// division does not fail.
#[verifier::external_body]
pub(crate) fn fixed_div_floor(numerator: u64, divisor: u64) -> (q: u64)
    requires
        divisor > 0,
    ensures
        q == numerator / divisor,
{
    U64F64::from_num(numerator).checked_div(U64F64::from_num(divisor)).unwrap().to_num::<u64>()
}

} // verus!
