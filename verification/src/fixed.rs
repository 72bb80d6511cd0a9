//! Fixed-point scalars: a court unit, and a second, is `UNIT` steps.

use vstd::prelude::*;

verus! {

/// Steps in one court unit, and microseconds in one second.
pub const UNIT: i64 = 1_000_000;

/// Largest magnitude of a coordinate, a velocity component or a time step that
/// the engine accepts as input.
pub const LIMIT: i64 = 1_000_000_000_000;

/// `-bound <= v <= bound`.
pub open spec fn bounded(v: int, bound: int) -> bool {
    -bound <= v <= bound
}

/// Absolute value.
pub open spec fn magnitude(v: int) -> int {
    if v < 0 {
        -v
    } else {
        v
    }
}

/// The quotient of `n` by a positive `d`, rounded toward zero.
pub open spec fn quotient(n: int, d: int) -> int {
    if n >= 0 {
        n / d
    } else {
        -((-n) / d)
    }
}

/// The fixed-point product of `a` and `b`: `a * b / UNIT`, rounded toward zero.
pub open spec fn scaled(a: int, b: int) -> int {
    quotient(a * b, UNIT as int)
}

/// The fixed-point product of two values bounded by `2 * LIMIT` is bounded by
/// `4 * LIMIT * UNIT`, which fits 64 bits.
pub proof fn lemma_product_bounded(a: int, b: int)
    requires
        bounded(a, 2 * LIMIT),
        bounded(b, 2 * LIMIT),
    ensures
        bounded(a * b, 4 * LIMIT * LIMIT),
        bounded(scaled(a, b), 4 * LIMIT * UNIT),
{
    let m: int = 2 * LIMIT;
    assert(-(m * m) <= a * b <= m * m) by (nonlinear_arith)
        requires
            -m <= a <= m,
            -m <= b <= m,
            m >= 0,
    ;
    assert(m * m == 4 * LIMIT * LIMIT) by (nonlinear_arith)
        requires
            m == 2 * LIMIT,
    ;
}

/// Negating one factor negates the fixed-point product.
pub proof fn lemma_scaled_negated(a: int, b: int)
    ensures
        scaled(-a, b) == -scaled(a, b),
{
    assert((-a) * b == -(a * b)) by (nonlinear_arith);
}

/// Fixed-point multiplication, for every pair of factors whose product fits.
pub fn fx_mul(a: i64, b: i64) -> (r: i64)
    requires
        i64::MIN <= scaled(a as int, b as int) <= i64::MAX,
    ensures
        r == scaled(a as int, b as int),
{
    assert(-0x4000_0000_0000_0000_0000_0000_0000_0000 <= a * b
        <= 0x4000_0000_0000_0000_0000_0000_0000_0000) by (nonlinear_arith)
        requires
            -0x8000_0000_0000_0000 <= a <= 0x8000_0000_0000_0000,
            -0x8000_0000_0000_0000 <= b <= 0x8000_0000_0000_0000,
    ;
    let wide: i128 = (a as i128) * (b as i128);
    let q: i128 = if wide >= 0 {
        wide / 1_000_000
    } else {
        -((-wide) / 1_000_000)
    };
    q as i64
}

} // verus!
