//! Decimal fixed-point arithmetic on `i64` quantities.
//!
//! A quantity is an `i64` that counts millionths of its unit. Sums and
//! differences of quantities are ordinary integer sums; a product has to be
//! brought back to the resolution, and a square root is taken on the integers.
//! Intermediate values are computed in 128 bits, where none of them can
//! overflow, and narrowed at the end.

use vstd::prelude::*;

verus! {

/// How many representation units make one whole unit.
pub const SCALE: i64 = 1_000_000;

/// Whether a mathematical integer can be held as a quantity.
pub open spec fn in_range(v: int) -> bool {
    i64::MIN <= v <= i64::MAX
}

/// The product of two quantities, rounded down to the resolution.
pub open spec fn scaled_product(a: int, b: int) -> int {
    (a * b) / (SCALE as int)
}

/// Whether `r` is the integer square root of `n`: the largest natural number
/// whose square does not exceed `n`.
pub open spec fn is_floor_sqrt(n: int, r: int) -> bool {
    0 <= r && r * r <= n < (r + 1) * (r + 1)
}

/// The integer square root of `n`. It is determined for every `n >= 0`, see
/// [`lemma_floor_sqrt_exists`] and [`lemma_floor_sqrt_unique`].
pub open spec fn floor_sqrt(n: int) -> int {
    choose|r: int| is_floor_sqrt(n, r)
}

/// At most one number is the integer square root of `n`.
pub proof fn lemma_floor_sqrt_unique(n: int, r1: int, r2: int)
    requires
        is_floor_sqrt(n, r1),
        is_floor_sqrt(n, r2),
    ensures
        r1 == r2,
{
    assert(r1 == r2) by (nonlinear_arith)
        requires
            0 <= r1,
            0 <= r2,
            r1 * r1 <= n,
            n < (r1 + 1) * (r1 + 1),
            r2 * r2 <= n,
            n < (r2 + 1) * (r2 + 1),
    ;
}

/// Every natural number has an integer square root.
pub proof fn lemma_floor_sqrt_exists(n: int)
    requires
        n >= 0,
    ensures
        is_floor_sqrt(n, floor_sqrt(n)),
    decreases n,
{
    if n == 0 {
        assert(is_floor_sqrt(0, 0));
    } else {
        lemma_floor_sqrt_exists(n - 1);
        let r = floor_sqrt(n - 1);
        if (r + 1) * (r + 1) <= n {
            assert((r + 1) * (r + 1) < (r + 2) * (r + 2)) by (nonlinear_arith)
                requires
                    0 <= r,
            ;
            assert(is_floor_sqrt(n, r + 1));
        } else {
            assert(is_floor_sqrt(n, r));
        }
    }
}

/// Computes the product of two quantities. The result is exact and is
/// returned in 128 bits, in which it always fits with room to add a quantity.
pub fn mul_scaled(a: i64, b: i64) -> (p: i128)
    ensures
        p == scaled_product(a as int, b as int),
        -0x4000_0000_0000_0000_0000_0000_0000_0000 <= p
            <= 0x4000_0000_0000_0000_0000_0000_0000_0000,
{
    assert(-0x4000_0000_0000_0000_0000_0000_0000_0000 <= (a as int) * (b as int)
        <= 0x4000_0000_0000_0000_0000_0000_0000_0000) by (nonlinear_arith)
        requires
            -0x8000_0000_0000_0000 <= a as int <= 0x8000_0000_0000_0000,
            -0x8000_0000_0000_0000 <= b as int <= 0x8000_0000_0000_0000,
    ;
    let wide: i128 = (a as i128) * (b as i128);
    wide.checked_div_euclid(SCALE as i128).unwrap()
}

/// Narrows a 128-bit intermediate to a quantity, if it is one.
pub fn narrow(v: i128) -> (r: Option<i64>)
    ensures
        match r {
            Some(q) => q == v,
            None => !in_range(v as int),
        },
{
    if v < i64::MIN as i128 || v > i64::MAX as i128 {
        None
    } else {
        Some(v as i64)
    }
}

/// Adds a 128-bit increment to a quantity and narrows the sum.
pub fn offset(base: i64, delta: i128) -> (r: Option<i64>)
    ensures
        match r {
            Some(q) => q == base + delta,
            None => !in_range(base + delta),
        },
{
    match (base as i128).checked_add(delta) {
        Some(sum) => narrow(sum),
        None => None,
    }
}

/// Computes the square of a quantity, which always fits in 128 bits.
pub fn square(v: i64) -> (r: u128)
    ensures
        r == (v as int) * (v as int),
        r <= 0x4000_0000_0000_0000_0000_0000_0000_0000,
{
    let wide: i128 = v as i128;
    assert(0 <= wide * wide <= 0x4000_0000_0000_0000_0000_0000_0000_0000) by (nonlinear_arith)
        requires
            -0x8000_0000_0000_0000 <= wide <= 0x8000_0000_0000_0000,
    ;
    (wide * wide) as u128
}

/// Computes the integer square root by bisection.
pub fn isqrt(n: u128) -> (r: u64)
    ensures
        r == floor_sqrt(n as int),
{
    let mut lo: u128 = 0;
    let mut hi: u128 = 0x1_0000_0000_0000_0000;
    while hi - lo > 1
        invariant
            lo < hi <= 0x1_0000_0000_0000_0000,
            lo * lo <= n,
            n < hi * hi,
        decreases hi - lo,
    {
        let mid: u128 = lo + (hi - lo) / 2;
        assert(mid * mid <= u128::MAX) by (nonlinear_arith)
            requires
                mid <= 0xffff_ffff_ffff_ffff,
        ;
        if mid * mid <= n {
            lo = mid;
        } else {
            hi = mid;
        }
    }
    proof {
        assert(is_floor_sqrt(n as int, lo as int));
        lemma_floor_sqrt_unique(n as int, lo as int, floor_sqrt(n as int));
    }
    lo as u64
}

} // verus!
