//! Fixed-point arithmetic on millionths: products, quotients, integer roots
//! and linear interpolation, each with an exact contract over `int`.

use vstd::prelude::*;

verus! {

/// The fixed-point representation of 1.0: quantities are stored as millionths
/// of their unit, so one solar mass is `1_000_000`.
pub const UNIT: u64 = 1_000_000;

/// `r` is the integer square root of `n`, rounded down.
pub open spec fn is_sqrt_floor(n: int, r: int) -> bool {
    0 <= r && r * r <= n < (r + 1) * (r + 1)
}

/// The integer square root of `n`, rounded down (for `n >= 0`).
pub open spec fn sqrt_floor(n: int) -> int {
    choose|r: int| is_sqrt_floor(n, r)
}

/// Squaring is strictly monotone on the non-negative integers.
pub proof fn lemma_square_monotone(a: int, b: int)
    requires
        0 <= a < b,
    ensures
        a * a < b * b,
        (a + 1) * (a + 1) <= b * b,
{
    assert(a * a < b * b) by (nonlinear_arith)
        requires
            0 <= a < b,
    ;
    assert((a + 1) * (a + 1) <= b * b) by (nonlinear_arith)
        requires
            0 <= a + 1 <= b,
    ;
}

/// A number has at most one rounded-down square root, and `sqrt_floor` names
/// it.
pub proof fn lemma_sqrt_floor_is(n: int, r: int)
    requires
        is_sqrt_floor(n, r),
    ensures
        sqrt_floor(n) == r,
{
    let s = sqrt_floor(n);
    if s < r {
        lemma_square_monotone(s, r);
    } else if r < s {
        lemma_square_monotone(r, s);
    }
}

/// Every non-negative number has a rounded-down square root, which
/// `sqrt_floor` names.
pub proof fn lemma_sqrt_floor_exists(n: nat)
    ensures
        is_sqrt_floor(n as int, sqrt_floor(n as int)),
    decreases n,
{
    if n == 0 {
        assert(is_sqrt_floor(0, 0));
    } else {
        lemma_sqrt_floor_exists((n - 1) as nat);
        let r = sqrt_floor(n - 1);
        if (r + 1) * (r + 1) <= n {
            assert((r + 2) * (r + 2) > (r + 1) * (r + 1)) by (nonlinear_arith)
                requires
                    0 <= r,
            ;
            assert(is_sqrt_floor(n as int, r + 1));
        } else {
            assert(is_sqrt_floor(n as int, r));
        }
    }
}

/// The rounded-down square root never decreases as the number grows.
pub proof fn lemma_sqrt_floor_monotone(smaller: nat, larger: nat)
    requires
        smaller <= larger,
    ensures
        0 <= sqrt_floor(smaller as int) <= sqrt_floor(larger as int),
{
    lemma_sqrt_floor_exists(smaller);
    lemma_sqrt_floor_exists(larger);
    let low = sqrt_floor(smaller as int);
    let high = sqrt_floor(larger as int);
    if high < low {
        lemma_square_monotone(high, low);
    }
}

/// The integer square root of `n`, rounded down.
pub fn isqrt(n: u128) -> (r: u64)
    ensures
        is_sqrt_floor(n as int, r as int),
        r as int == sqrt_floor(n as int),
{
    let mut low: u128 = 0;
    let mut high: u128 = 0x1_0000_0000_0000_0000;
    while high - low > 1
        invariant
            low < high <= 0x1_0000_0000_0000_0000,
            low * low <= n,
            n < high * high,
        decreases high - low,
    {
        let middle: u128 = low + (high - low) / 2;
        assert(middle * middle <= 0xffff_ffff_ffff_ffffint * 0xffff_ffff_ffff_ffffint)
            by (nonlinear_arith)
            requires
                0 <= middle <= 0xffff_ffff_ffff_ffffint,
        ;
        if middle * middle <= n {
            low = middle;
        } else {
            high = middle;
        }
    }
    proof {
        lemma_sqrt_floor_is(n as int, low as int);
    }
    low as u64
}

/// `a * b`, widened so that it cannot overflow.
pub fn wide_product(a: u64, b: u64) -> (product: u128)
    ensures
        product == a * b,
        product <= 0xffff_ffff_ffff_ffff * (b as int),
        product <= 0xffff_ffff_ffff_fffe_0000_0000_0000_0001,
{
    assert(0 <= a * b <= 0xffff_ffff_ffff_ffffint * b) by (nonlinear_arith)
        requires
            0 <= a <= 0xffff_ffff_ffff_ffffint,
            0 <= b,
    ;
    (a as u128) * (b as u128)
}

/// `a * b / c`, rounded down, computed without intermediate overflow.
pub fn mul_div(a: u64, b: u64, c: u64) -> (r: u64)
    requires
        c > 0,
        a * b / (c as int) <= u64::MAX,
    ensures
        r == a * b / (c as int),
{
    let product: u128 = wide_product(a, b);
    let quotient: u128 = product / (c as u128);
    quotient as u64
}

/// A fraction below one of a span stays below the span, and grows with the
/// fraction.
pub proof fn lemma_fraction_of_span(span: int, fraction: int, whole: int)
    requires
        0 <= span,
        0 <= fraction < whole,
    ensures
        0 <= span * fraction / whole,
        span > 0 ==> span * fraction / whole < span,
        span == 0 ==> span * fraction / whole == 0,
{
    if span > 0 {
        assert(span * fraction < span * whole) by (nonlinear_arith)
            requires
                0 < span,
                0 <= fraction < whole,
        ;
        vstd::arithmetic::div_mod::lemma_div_by_multiple_is_strongly_ordered(
            span * fraction,
            span * whole,
            span,
            whole,
        );
        vstd::arithmetic::div_mod::lemma_div_by_multiple(span, whole);
    }
}

} // verus!
