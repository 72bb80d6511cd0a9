//! Two-dimensional fixed-point vectors and their mathematical view.

use crate::fixed::{bounded, fx_mul, lemma_product_bounded, scaled, LIMIT, UNIT};
use vstd::prelude::*;

verus! {

/// A point or displacement of the plane over the integers: what a `Vector2` stands for.
pub struct Point {
    pub x: int,
    pub y: int,
}

impl Point {
    /// This point moved by `(dx, dy)`.
    pub open spec fn shifted(self, dx: int, dy: int) -> Point {
        Point { x: self.x + dx, y: self.y + dy }
    }

    /// This point after travelling at `velocity` for `dt`: `self + velocity * dt`.
    pub open spec fn moved(self, velocity: Point, dt: int) -> Point {
        Point { x: self.x + scaled(velocity.x, dt), y: self.y + scaled(velocity.y, dt) }
    }

    /// The squared Euclidean length.
    pub open spec fn norm_squared(self) -> int {
        self.x * self.x + self.y * self.y
    }

    /// Both components lie within `bound` of zero.
    pub open spec fn within(self, bound: int) -> bool {
        bounded(self.x, bound) && bounded(self.y, bound)
    }
}

/// A position, velocity or offset in fixed-point steps.
#[derive(Clone, Copy, Debug, PartialEq, Eq, Structural)]
pub struct Vector2 {
    pub x: i64,
    pub y: i64,
}

impl View for Vector2 {
    type V = Point;

    open spec fn view(&self) -> Point {
        Point { x: self.x as int, y: self.y as int }
    }
}

impl Vector2 {
    /// The vector `(x, y)`.
    pub fn new(x: i64, y: i64) -> (v: Vector2)
        ensures
            v.x == x,
            v.y == y,
    {
        Vector2 { x, y }
    }

    /// The zero vector.
    pub fn zeros() -> (v: Vector2)
        ensures
            v.x == 0,
            v.y == 0,
    {
        Vector2 { x: 0, y: 0 }
    }

    /// Both components are accepted as engine input.
    pub open spec fn in_range(self) -> bool {
        self@.within(LIMIT as int)
    }

    /// Tells whether both components are accepted as engine input.
    pub fn is_in_range(&self) -> (ok: bool)
        ensures
            ok == self.in_range(),
    {
        -LIMIT <= self.x && self.x <= LIMIT && -LIMIT <= self.y && self.y <= LIMIT
    }

    /// This vector moved by `(dx, dy)`.
    pub fn offset(self, dx: i64, dy: i64) -> (v: Vector2)
        requires
            self@.within(4 * LIMIT * UNIT + LIMIT),
            bounded(dx as int, LIMIT as int),
            bounded(dy as int, LIMIT as int),
        ensures
            v@ == self@.shifted(dx as int, dy as int),
    {
        Vector2 { x: self.x + dx, y: self.y + dy }
    }

    /// This position after travelling at `velocity` for `dt`.
    pub fn advanced(self, velocity: Vector2, dt: i64) -> (v: Vector2)
        requires
            self.in_range(),
            velocity@.within(2 * LIMIT),
            bounded(dt as int, LIMIT as int),
        ensures
            v@ == self@.moved(velocity@, dt as int),
            v@.within(4 * LIMIT * UNIT + LIMIT),
    {
        proof {
            lemma_product_bounded(velocity.x as int, dt as int);
            lemma_product_bounded(velocity.y as int, dt as int);
        }
        let dx: i64 = fx_mul(velocity.x, dt);
        let dy: i64 = fx_mul(velocity.y, dt);
        Vector2 { x: self.x + dx, y: self.y + dy }
    }
}

} // verus!
