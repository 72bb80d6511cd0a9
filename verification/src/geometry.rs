//! Integer square roots, unit vectors and the circle-against-segment test.

use crate::fixed::{magnitude, quotient, LIMIT, UNIT};
use crate::vector::{Point, Vector2};
use vstd::prelude::*;

verus! {

/// `r` is the integer square root of `n`: the largest `r >= 0` with `r * r <= n`.
pub open spec fn is_root(n: int, r: int) -> bool {
    0 <= r && r * r <= n < (r + 1) * (r + 1)
}

/// The integer square root of `n >= 0`.
pub open spec fn floor_root(n: int) -> int {
    choose|r: int| is_root(n, r)
}

/// A number has at most one integer square root.
pub proof fn lemma_root_unique(n: int, r: int, s: int)
    requires
        is_root(n, r),
        is_root(n, s),
    ensures
        r == s,
{
    if r < s {
        assert((r + 1) * (r + 1) <= s * s) by (nonlinear_arith)
            requires
                0 <= r + 1 <= s,
        ;
    }
    if s < r {
        assert((s + 1) * (s + 1) <= r * r) by (nonlinear_arith)
            requires
                0 <= s + 1 <= r,
        ;
    }
}

/// Squaring keeps the order of non-negative numbers.
pub proof fn lemma_square_monotonic(a: int, b: int)
    requires
        0 <= a <= b,
    ensures
        a * a <= b * b,
{
    assert(a * a <= b * b) by (nonlinear_arith)
        requires
            0 <= a <= b,
    ;
}

/// The integer square root, by bisection.
pub fn isqrt(n: u128) -> (r: u128)
    ensures
        is_root(n as int, r as int),
        r as int == floor_root(n as int),
{
    let mut lo: u128 = 0;
    let mut hi: u128 = 0x1_0000_0000_0000_0000;
    assert(0x1_0000_0000_0000_0000int * 0x1_0000_0000_0000_0000int
        == 0x1_0000_0000_0000_0000_0000_0000_0000_0000int) by (nonlinear_arith);
    assert(0xFFFF_FFFF_FFFF_FFFFint * 0xFFFF_FFFF_FFFF_FFFFint
        == 0xFFFF_FFFF_FFFF_FFFE_0000_0000_0000_0001int) by (nonlinear_arith);
    while hi - lo > 1
        invariant
            lo < hi <= 0x1_0000_0000_0000_0000u128,
            lo * lo <= n < hi * hi,
            0xFFFF_FFFF_FFFF_FFFFint * 0xFFFF_FFFF_FFFF_FFFFint
                == 0xFFFF_FFFF_FFFF_FFFE_0000_0000_0000_0001int,
        decreases hi - lo,
    {
        let mid: u128 = lo + (hi - lo) / 2;
        proof {
            lemma_square_monotonic(mid as int, 0xFFFF_FFFF_FFFF_FFFFint);
        }
        if mid * mid <= n {
            lo = mid;
        } else {
            hi = mid;
        }
    }
    proof {
        assert(hi == lo + 1);
        lemma_root_unique(n as int, lo as int, floor_root(n as int));
    }
    lo
}

/// `UNIT` times the Euclidean length of `v`, rounded down.
pub open spec fn scaled_length(v: Point) -> int {
    floor_root(UNIT * UNIT * v.norm_squared())
}

/// `v` scaled to length `UNIT`, each component rounded toward zero.
pub open spec fn unit_of(v: Point) -> Point {
    Point {
        x: quotient(v.x * UNIT * UNIT, scaled_length(v)),
        y: quotient(v.y * UNIT * UNIT, scaled_length(v)),
    }
}

/// The length of `v` is `UNIT`, up to the rounding of its two components:
/// it lies strictly between `UNIT - 3` and `UNIT + 1`.
pub open spec fn near_unit(v: Point) -> bool {
    UNIT * UNIT - 4 * UNIT < v.norm_squared() < (UNIT + 1) * (UNIT + 1)
}

/// The quotient and the divisor multiply to within one divisor below the dividend.
proof fn lemma_quotient_brackets(a: int, m: int)
    requires
        0 <= a,
        0 < m,
    ensures
        0 <= (a / m) * m <= a < (a / m) * m + m,
{
    vstd::arithmetic::div_mod::lemma_fundamental_div_mod(a, m);
    vstd::arithmetic::div_mod::lemma_mod_bound(a, m);
    assert(m * (a / m) == (a / m) * m) by (nonlinear_arith);
    assert(0 <= (a / m) * m) by (nonlinear_arith)
        requires
            0 <= a,
            0 < m,
            a < (a / m) * m + m,
    ;
}

/// With `m` the root of `u * u * (x * x + y * y)`, the quotients of `x * u * u`
/// and `y * u * u` by `m` are at most `u` each, and their squares sum to
/// nearly `u * u`.
proof fn lemma_unit_norm(u: int, x: int, y: int, m: int)
    requires
        3 <= u,
        0 <= x,
        0 <= y,
        0 < x + y,
        is_root(u * u * (x * x + y * y), m),
    ensures
        u <= m,
        (x * u * u) / m <= u,
        (y * u * u) / m <= u,
        u * u - 4 * u < ((x * u * u) / m) * ((x * u * u) / m) + ((y * u * u) / m) * ((y * u * u)
            / m) < (u + 1) * (u + 1),
{
    let n = u * u * (x * x + y * y);
    let ga = x * u * u;
    let gb = y * u * u;
    assert(1 <= x * x + y * y) by (nonlinear_arith)
        requires
            0 <= x,
            0 <= y,
            0 < x + y,
    ;
    assert(u * u <= n && 0 <= ga && 0 <= gb && ga * ga + gb * gb == u * u * n) by (nonlinear_arith)
        requires
            n == u * u * (x * x + y * y),
            ga == x * u * u,
            gb == y * u * u,
            1 <= x * x + y * y,
            0 <= x,
            0 <= y,
            3 <= u,
    ;
    if m < u {
        lemma_square_monotonic(m + 1, u);
    }
    assert(u <= m);
    let qx = ga / m;
    let qy = gb / m;
    lemma_quotient_brackets(ga, m);
    lemma_quotient_brackets(gb, m);
    let a = qx * m;
    let b = qy * m;
    // each component is at most u
    assert((x * u) * (x * u) <= n && (y * u) * (y * u) <= n && ga == (x * u) * u && gb == (y * u)
        * u) by (nonlinear_arith)
        requires
            n == u * u * (x * x + y * y),
            ga == x * u * u,
            gb == y * u * u,
            0 <= x,
            0 <= y,
    ;
    if m + 1 <= x * u {
        lemma_square_monotonic(m + 1, x * u);
    }
    if m + 1 <= y * u {
        lemma_square_monotonic(m + 1, y * u);
    }
    assert(qx <= u) by (nonlinear_arith)
        requires
            qx * m <= ga,
            ga == (x * u) * u,
            x * u <= m,
            0 < m,
            0 <= u,
    ;
    assert(qy <= u) by (nonlinear_arith)
        requires
            qy * m <= gb,
            gb == (y * u) * u,
            y * u <= m,
            0 < m,
            0 <= u,
    ;
    let q = qx * qx + qy * qy;
    assert(q * (m * m) == a * a + b * b) by (nonlinear_arith)
        requires
            q == qx * qx + qy * qy,
            a == qx * m,
            b == qy * m,
    ;
    // from above
    lemma_square_monotonic(a, ga);
    lemma_square_monotonic(b, gb);
    assert(u * u * n < (u * (m + 1)) * (u * (m + 1))) by (nonlinear_arith)
        requires
            n < (m + 1) * (m + 1),
            3 <= u,
    ;
    if q >= (u + 1) * (u + 1) {
        assert(u * (m + 1) <= (u + 1) * m) by (nonlinear_arith)
            requires
                u <= m,
        ;
        lemma_square_monotonic(u * (m + 1), (u + 1) * m);
        assert(q * (m * m) >= ((u + 1) * m) * ((u + 1) * m)) by (nonlinear_arith)
            requires
                q >= (u + 1) * (u + 1),
                0 < m,
        ;
        assert(false);
    }
    // from below
    assert(a * a >= ga * ga - 2 * ga * m) by (nonlinear_arith)
        requires
            0 <= a <= ga,
            ga < a + m,
            0 < m,
    ;
    assert(b * b >= gb * gb - 2 * gb * m) by (nonlinear_arith)
        requires
            0 <= b <= gb,
            gb < b + m,
            0 < m,
    ;
    let t = u * (x + y);
    assert(t * t <= 2 * n && ga + gb == u * t && 0 <= t) by (nonlinear_arith)
        requires
            t == u * (x + y),
            n == u * u * (x * x + y * y),
            ga == x * u * u,
            gb == y * u * u,
            0 <= x,
            0 <= y,
            0 <= u,
    ;
    assert(2 * ((m + 1) * (m + 1)) <= (2 * m) * (2 * m)) by (nonlinear_arith)
        requires
            3 <= m,
    ;
    if 2 * m <= t {
        lemma_square_monotonic(2 * m, t);
    }
    assert(t < 2 * m);
    assert(2 * (ga + gb) * m < 4 * u * (m * m)) by (nonlinear_arith)
        requires
            ga + gb == u * t,
            0 <= t < 2 * m,
            3 <= u,
            0 < m,
    ;
    assert(u * u * n >= u * u * (m * m)) by (nonlinear_arith)
        requires
            m * m <= n,
            3 <= u,
    ;
    assert(q * (m * m) > (u * u - 4 * u) * (m * m)) by (nonlinear_arith)
        requires
            q * (m * m) == a * a + b * b,
            a * a >= ga * ga - 2 * ga * m,
            b * b >= gb * gb - 2 * gb * m,
            ga * ga + gb * gb == u * u * n,
            u * u * n >= u * u * (m * m),
            2 * (ga + gb) * m < 4 * u * (m * m),
    ;
    assert(q > u * u - 4 * u) by (nonlinear_arith)
        requires
            q * (m * m) > (u * u - 4 * u) * (m * m),
            0 < m,
    ;
}

/// Every non-negative number has an integer square root.
pub proof fn lemma_root_exists(n: int)
    requires
        0 <= n,
    ensures
        is_root(n, floor_root(n)),
    decreases n,
{
    if n == 0 {
        assert(is_root(0, 0));
    } else {
        lemma_root_exists(n - 1);
        let r = floor_root(n - 1);
        if (r + 1) * (r + 1) <= n {
            assert(n < (r + 2) * (r + 2)) by (nonlinear_arith)
                requires
                    n - 1 < (r + 1) * (r + 1),
                    0 <= r,
            ;
            assert(is_root(n, r + 1));
        } else {
            assert(is_root(n, r));
        }
    }
}

/// The unit vector of any vector with a direction has components of at most
/// `UNIT` and a length within rounding of `UNIT`.
pub proof fn lemma_unit_length(v: Point)
    requires
        v.x != 0 || v.y != 0,
    ensures
        near_unit(unit_of(v)),
        unit_of(v).within(UNIT as int),
{
    let ax = magnitude(v.x);
    let ay = magnitude(v.y);
    let m = scaled_length(v);
    assert(ax * ax == v.x * v.x && ay * ay == v.y * v.y) by (nonlinear_arith)
        requires
            ax == v.x || ax == -v.x,
            ay == v.y || ay == -v.y,
    ;
    assert(0 <= UNIT * UNIT * (ax * ax + ay * ay)) by (nonlinear_arith);
    lemma_root_exists(UNIT * UNIT * v.norm_squared());
    lemma_unit_norm(UNIT as int, ax, ay, m);
    let qx = (ax * UNIT * UNIT) / m;
    let qy = (ay * UNIT * UNIT) / m;
    let u = unit_of(v);
    assert(u.x == qx || u.x == -qx);
    assert(u.y == qy || u.y == -qy);
    assert(u.x * u.x == qx * qx && u.y * u.y == qy * qy) by (nonlinear_arith)
        requires
            u.x == qx || u.x == -qx,
            u.y == qy || u.y == -qy,
    ;
}

/// `UNIT * UNIT`.
const UNIT_SQUARED: u128 = 1_000_000_000_000;

/// `v` scaled to unit length.
pub fn normalize(v: Vector2) -> (u: Vector2)
    requires
        v.in_range(),
        v.x != 0 || v.y != 0,
    ensures
        u@ == unit_of(v@),
        u@.within(UNIT as int),
        near_unit(u@),
{
    let ax: u128 = if v.x >= 0 {
        v.x as u128
    } else {
        (-v.x) as u128
    };
    let ay: u128 = if v.y >= 0 {
        v.y as u128
    } else {
        (-v.y) as u128
    };
    proof {
        lemma_square_monotonic(ax as int, LIMIT as int);
        lemma_square_monotonic(ay as int, LIMIT as int);
        assert(LIMIT * LIMIT == 1_000_000_000_000_000_000_000_000) by (nonlinear_arith);
    }
    let n: u128 = (ax * ax + ay * ay) * UNIT_SQUARED;
    let m: u128 = isqrt(n);
    proof {
        assert(ax * ax == v.x * v.x && ay * ay == v.y * v.y) by (nonlinear_arith)
            requires
                ax == v.x || ax == -v.x,
                ay == v.y || ay == -v.y,
        ;
        assert(n == UNIT * UNIT * v@.norm_squared());
        assert(UNIT * UNIT * (ax * ax + ay * ay) == n);
        lemma_unit_norm(UNIT as int, ax as int, ay as int, m as int);
        lemma_unit_length(v@);
    }
    let qx: u128 = ax * UNIT_SQUARED / m;
    let qy: u128 = ay * UNIT_SQUARED / m;
    let ux: i64 = if v.x >= 0 {
        qx as i64
    } else {
        -(qx as i64)
    };
    let uy: i64 = if v.y >= 0 {
        qy as i64
    } else {
        -(qy as i64)
    };
    Vector2 { x: ux, y: uy }
}

/// Whether the circle of the given radius about `p` touches the capsule around
/// the segment from `a` down to `b`: the centre lies within `radius` of the line
/// through `a` and `b`, and the circle's vertical extent reaches the span from
/// `b.y` up to `a.y`. No line passes through a segment of length zero.
pub open spec fn circle_meets_line(p: Point, radius: int, a: Point, b: Point) -> bool {
    let lx = a.x - b.x;
    let ly = a.y - b.y;
    let cross = lx * (p.y - a.y) - ly * (p.x - a.x);
    &&& (lx != 0 || ly != 0)
    &&& radius >= 0
    &&& cross * cross <= radius * radius * (lx * lx + ly * ly)
    &&& p.y - radius <= a.y
    &&& p.y + radius >= b.y
}

/// For a vertical segment the distance to its line is the horizontal offset.
pub proof fn lemma_vertical_line(p: Point, radius: int, a: Point, b: Point)
    requires
        a.x == b.x,
    ensures
        circle_meets_line(p, radius, a, b) <==> {
            &&& a.y != b.y
            &&& -radius <= p.x - a.x <= radius
            &&& p.y - radius <= a.y
            &&& p.y + radius >= b.y
        },
{
    let ly = a.y - b.y;
    let dx = p.x - a.x;
    let cross = 0 * (p.y - a.y) - ly * dx;
    if ly != 0 && radius >= 0 {
        assert(cross * cross == (ly * ly) * (dx * dx) && radius * radius * (0 * 0 + ly * ly) == (ly
            * ly) * (radius * radius) && ly * ly > 0) by (nonlinear_arith)
            requires
                cross == 0 * (p.y - a.y) - ly * dx,
                ly != 0,
        ;
        if -radius <= dx <= radius {
            assert(dx * dx <= radius * radius) by (nonlinear_arith)
                requires
                    -radius <= dx <= radius,
            ;
            assert((ly * ly) * (dx * dx) <= (ly * ly) * (radius * radius)) by (nonlinear_arith)
                requires
                    dx * dx <= radius * radius,
                    ly * ly > 0,
            ;
        } else {
            assert(dx * dx > radius * radius) by (nonlinear_arith)
                requires
                    dx < -radius || dx > radius,
                    radius >= 0,
            ;
            assert((ly * ly) * (dx * dx) > (ly * ly) * (radius * radius)) by (nonlinear_arith)
                requires
                    dx * dx > radius * radius,
                    ly * ly > 0,
            ;
        }
    }
}

/// Largest magnitude of a coordinate or radius for which the test against a
/// slanted segment is computed: 2^30 steps.
pub const SPAN: i64 = 0x4000_0000;

/// The product of two bounded numbers is bounded by the product of the bounds.
proof fn lemma_product_within(x: int, y: int, bx: int, by: int)
    requires
        -bx <= x <= bx,
        -by <= y <= by,
    ensures
        -(bx * by) <= x * y <= bx * by,
{
    assert(-(bx * by) <= x * y <= bx * by) by (nonlinear_arith)
        requires
            -bx <= x <= bx,
            -by <= y <= by,
    ;
}

/// Tests a circle against the capsule around the segment from `a` down to `b`.
/// A vertical segment is tested at any coordinates, a slanted one within `SPAN`.
pub fn circle_intersect_line(p: Vector2, radius: i64, a: Vector2, b: Vector2) -> (hit: bool)
    requires
        a.x == b.x || (p@.within(SPAN as int) && a@.within(SPAN as int) && b@.within(SPAN as int)
            && radius <= SPAN),
    ensures
        hit == circle_meets_line(p@, radius as int, a@, b@),
{
    let r: i128 = radius as i128;
    let py: i128 = p.y as i128;
    let pax: i128 = p.x as i128 - a.x as i128;
    if a.x == b.x {
        proof {
            lemma_vertical_line(p@, radius as int, a@, b@);
        }
        a.y != b.y && -r <= pax && pax <= r && py - r <= a.y as i128 && py + r >= b.y as i128
    } else if radius < 0 {
        false
    } else {
        let lx: i128 = a.x as i128 - b.x as i128;
        let ly: i128 = a.y as i128 - b.y as i128;
        let pay: i128 = py - a.y as i128;
        proof {
            let d: int = 2 * SPAN;
            lemma_product_within(lx as int, pay as int, d, d);
            lemma_product_within(ly as int, pax as int, d, d);
            lemma_product_within(lx as int, lx as int, d, d);
            lemma_product_within(ly as int, ly as int, d, d);
            lemma_product_within(r as int, r as int, SPAN as int, SPAN as int);
            assert(d * d == 0x4000_0000_0000_0000) by (nonlinear_arith)
                requires
                    d == 0x8000_0000,
            ;
            assert(SPAN * SPAN == 0x1000_0000_0000_0000) by (nonlinear_arith);
            lemma_product_within(
                lx * pay - ly * pax,
                lx * pay - ly * pax,
                0x8000_0000_0000_0000,
                0x8000_0000_0000_0000,
            );
            assert(0x8000_0000_0000_0000int * 0x8000_0000_0000_0000int
                == 0x4000_0000_0000_0000_0000_0000_0000_0000) by (nonlinear_arith);
            lemma_product_within(
                r * r,
                lx * lx + ly * ly,
                0x1000_0000_0000_0000,
                0x8000_0000_0000_0000,
            );
            assert(0x1000_0000_0000_0000int * 0x8000_0000_0000_0000int
                == 0x0800_0000_0000_0000_0000_0000_0000_0000) by (nonlinear_arith);
        }
        let cross: i128 = lx * pay - ly * pax;
        let reach: i128 = (r * r) * (lx * lx + ly * ly);
        cross * cross <= reach && py - r <= a.y as i128 && py + r >= b.y as i128
    }
}

} // verus!
