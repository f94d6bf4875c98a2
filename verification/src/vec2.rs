//! Plane vectors in fixed-point coordinates.
//!
//! A `Vec2` holds a pair of `i64` components in thousandths of a unit.
//! Every operation returns a new vector and states its components exactly;
//! the scaled operations round toward zero, as `muldiv` does.

use vstd::prelude::*;
use crate::math::{muldiv, tdiv, isqrt, sqrt_floor};

verus! {

/// A two-component vector in fixed-point units.
#[derive(Clone, Copy, PartialEq, Eq, Structural, Debug)]
pub struct Vec2 {
    pub x: i64,
    pub y: i64,
}

/// Components large enough to overflow `x * x + y * y` past `u64::MAX` never
/// appear in a simulation; magnitudes are only defined under this bound.
pub const MAG_COMPONENT_LIMIT: i64 = 3_000_000_000;

impl Vec2 {
    /// The dot product of two vectors, as a mathematical integer.
    pub open spec fn spec_dot(self, o: Vec2) -> int {
        self.x * o.x + self.y * o.y
    }

    /// The squared magnitude.
    pub open spec fn spec_mag2(self) -> int {
        self.spec_dot(self)
    }

    pub fn new(x: i64, y: i64) -> (r: Vec2)
        ensures
            r == (Vec2 { x, y }),
    {
        Vec2 { x, y }
    }

    /// Componentwise sum.
    pub fn add(self, o: Vec2) -> (r: Vec2)
        requires
            i64::MIN <= self.x + o.x <= i64::MAX,
            i64::MIN <= self.y + o.y <= i64::MAX,
        ensures
            r.x == self.x + o.x,
            r.y == self.y + o.y,
    {
        Vec2 { x: self.x + o.x, y: self.y + o.y }
    }

    /// Componentwise difference.
    pub fn sub(self, o: Vec2) -> (r: Vec2)
        requires
            i64::MIN <= self.x - o.x <= i64::MAX,
            i64::MIN <= self.y - o.y <= i64::MAX,
        ensures
            r.x == self.x - o.x,
            r.y == self.y - o.y,
    {
        Vec2 { x: self.x - o.x, y: self.y - o.y }
    }

    /// The opposite vector.
    pub fn neg(self) -> (r: Vec2)
        requires
            self.x > i64::MIN,
            self.y > i64::MIN,
        ensures
            r.x == -self.x,
            r.y == -self.y,
    {
        Vec2 { x: -self.x, y: -self.y }
    }

    /// Multiplication by an integer scalar.
    pub fn scale(self, k: i64) -> (r: Vec2)
        requires
            i64::MIN <= self.x * k <= i64::MAX,
            i64::MIN <= self.y * k <= i64::MAX,
        ensures
            r.x == self.x * k,
            r.y == self.y * k,
    {
        proof {
            crate::math::lemma_tdiv_multiple(self.x * k, 1);
            crate::math::lemma_tdiv_multiple(self.y * k, 1);
        }
        Vec2 { x: muldiv(self.x, k, 1), y: muldiv(self.y, k, 1) }
    }

    /// Multiplication by the fraction `num / den`, each component rounded
    /// toward zero.
    pub fn scale_div(self, num: i64, den: i64) -> (r: Vec2)
        requires
            den > 0,
            i64::MIN <= tdiv(self.x * num, den as int) <= i64::MAX,
            i64::MIN <= tdiv(self.y * num, den as int) <= i64::MAX,
        ensures
            r.x == tdiv(self.x * num, den as int),
            r.y == tdiv(self.y * num, den as int),
    {
        Vec2 { x: muldiv(self.x, num, den), y: muldiv(self.y, num, den) }
    }

    /// Componentwise product.
    pub fn mul_elem(self, o: Vec2) -> (r: Vec2)
        requires
            i64::MIN <= self.x * o.x <= i64::MAX,
            i64::MIN <= self.y * o.y <= i64::MAX,
        ensures
            r.x == self.x * o.x,
            r.y == self.y * o.y,
    {
        proof {
            crate::math::lemma_tdiv_multiple(self.x * o.x, 1);
            crate::math::lemma_tdiv_multiple(self.y * o.y, 1);
        }
        Vec2 { x: muldiv(self.x, o.x, 1), y: muldiv(self.y, o.y, 1) }
    }

    /// Componentwise quotient, rounded toward zero. The divisor components
    /// must be positive, as when dividing a force by a mass vector.
    pub fn div_elem(self, o: Vec2) -> (r: Vec2)
        requires
            o.x > 0,
            o.y > 0,
        ensures
            r.x == tdiv(self.x as int, o.x as int),
            r.y == tdiv(self.y as int, o.y as int),
    {
        proof {
            crate::math::lemma_tdiv_shrink(self.x as int, o.x as int);
            crate::math::lemma_tdiv_shrink(self.y as int, o.y as int);
        }
        Vec2 { x: muldiv(self.x, 1, o.x), y: muldiv(self.y, 1, o.y) }
    }

    /// The dot product, computed in 128 bits so it never overflows.
    pub fn dot(self, o: Vec2) -> (r: i128)
        requires
            self.x > i64::MIN,
            self.y > i64::MIN,
            o.x > i64::MIN,
            o.y > i64::MIN,
        ensures
            r == self.spec_dot(o),
    {
        proof {
            assert(i128::MIN <= (self.x as int) * (o.x as int) <= i128::MAX
                && i128::MIN <= (self.y as int) * (o.y as int) <= i128::MAX
                && i128::MIN <= (self.x as int) * (o.x as int) + (self.y as int) * (o.y as int)
                <= i128::MAX) by (nonlinear_arith)
                requires
                    -(i64::MAX as int) <= self.x <= i64::MAX,
                    -(i64::MAX as int) <= self.y <= i64::MAX,
                    -(i64::MAX as int) <= o.x <= i64::MAX,
                    -(i64::MAX as int) <= o.y <= i64::MAX,
            ;
        }
        (self.x as i128) * (o.x as i128) + (self.y as i128) * (o.y as i128)
    }

    /// The squared magnitude, computed in 128 bits.
    pub fn mag2(self) -> (r: i128)
        requires
            self.x > i64::MIN,
            self.y > i64::MIN,
        ensures
            r == self.spec_mag2(),
            r >= 0,
    {
        let r: i128 = self.dot(self);
        proof {
            assert(self.spec_mag2() >= 0) by (nonlinear_arith);
        }
        r
    }

    /// The magnitude, rounded down to a whole fixed-point unit.
    pub fn magnitude(self) -> (r: i64)
        requires
            -MAG_COMPONENT_LIMIT <= self.x <= MAG_COMPONENT_LIMIT,
            -MAG_COMPONENT_LIMIT <= self.y <= MAG_COMPONENT_LIMIT,
        ensures
            r == sqrt_floor(self.spec_mag2() as nat),
            0 <= r,
    {
        let m2: i128 = self.mag2();
        proof {
            assert(self.spec_mag2() <= u64::MAX) by (nonlinear_arith)
                requires
                    -MAG_COMPONENT_LIMIT <= self.x <= MAG_COMPONENT_LIMIT,
                    -MAG_COMPONENT_LIMIT <= self.y <= MAG_COMPONENT_LIMIT,
            ;
            crate::math::lemma_sqrt_floor_bounds(self.spec_mag2() as nat);
            assert(sqrt_floor(self.spec_mag2() as nat) <= i64::MAX) by (nonlinear_arith)
                requires
                    sqrt_floor(self.spec_mag2() as nat) * sqrt_floor(self.spec_mag2() as nat)
                        <= self.spec_mag2() <= u64::MAX,
            ;
        }
        let r: u64 = isqrt(m2 as u64);
        r as i64
    }

    /// The distance between two points, rounded down to a whole fixed-point
    /// unit.
    pub fn dist(self, o: Vec2) -> (r: i64)
        requires
            -MAG_COMPONENT_LIMIT <= self.x - o.x <= MAG_COMPONENT_LIMIT,
            -MAG_COMPONENT_LIMIT <= self.y - o.y <= MAG_COMPONENT_LIMIT,
        ensures
            r == sqrt_floor(self.sub_spec(o).spec_mag2() as nat),
            0 <= r,
    {
        self.sub(o).magnitude()
    }

    /// The componentwise difference as a spec-level value.
    pub open spec fn sub_spec(self, o: Vec2) -> Vec2 {
        Vec2 { x: (self.x - o.x) as i64, y: (self.y - o.y) as i64 }
    }
}

} // verus!
