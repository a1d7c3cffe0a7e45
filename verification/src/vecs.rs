//! Fixed-point 2- and 3-vectors and their mathematical views.
//!
//! `Vec2` and `Vec3` carry `i64` fixed-point coordinates; `V2i` and `V3i`
//! are their ghost views over the unbounded integers, and every operation
//! below is specified exactly against the view.

use vstd::prelude::*;

verus! {

use crate::fx::SCALE;
use crate::fx::clamp;
use crate::fx::clamp_s;
use crate::fx::div_scale;
use crate::fx::isqrt;
use crate::fx::lemma_mul_bound;
use crate::fx::lemma_sqrt_floor_bounds;
use crate::fx::mul_div_scale;
use crate::fx::sqrt_floor;

/// Bound under which vector sums and differences stay inside `i64`.
pub const VEC_RANGE: i64 = 2_000_000_000;

/// Bound under which a squared length stays inside the square-root range.
pub const NORM_RANGE: i64 = 1_200_000_000;

/// Bound on the left operand of the scaled cross product.
pub const CROSS_LEFT_RANGE: i64 = 3_000_000_000;

/// Bound on the right operand of the scaled cross product.
pub const CROSS_RIGHT_RANGE: i64 = 100_000_000;

/// Bound on the scalar of `scale_div`.
pub const SCALAR_RANGE: i64 = 500_000_000;

/// Mathematical 2-vector.
pub ghost struct V2i {
    pub x: int,
    pub y: int,
}

/// Mathematical 3-vector.
pub ghost struct V3i {
    pub x: int,
    pub y: int,
    pub z: int,
}

impl V2i {
    /// Both coordinates within `b` in magnitude.
    pub open spec fn bounded(self, b: int) -> bool {
        &&& -b <= self.x <= b
        &&& -b <= self.y <= b
    }

    /// The zero 2-vector.
    pub open spec fn zero() -> V2i {
        V2i { x: 0, y: 0 }
    }
}

impl V3i {
    /// All coordinates within `b` in magnitude.
    pub open spec fn bounded(self, b: int) -> bool {
        &&& -b <= self.x <= b
        &&& -b <= self.y <= b
        &&& -b <= self.z <= b
    }

    /// The zero 3-vector.
    pub open spec fn zero() -> V3i {
        V3i { x: 0, y: 0, z: 0 }
    }

    /// Componentwise sum.
    pub open spec fn plus(self, o: V3i) -> V3i {
        V3i { x: self.x + o.x, y: self.y + o.y, z: self.z + o.z }
    }

    /// Componentwise difference.
    pub open spec fn minus(self, o: V3i) -> V3i {
        V3i { x: self.x - o.x, y: self.y - o.y, z: self.z - o.z }
    }

    /// Inner product.
    pub open spec fn dot(self, o: V3i) -> int {
        self.x * o.x + self.y * o.y + self.z * o.z
    }

    /// Squared length.
    pub open spec fn len2(self) -> int {
        self.dot(self)
    }

    /// Floor of the length.
    pub open spec fn norm(self) -> int {
        sqrt_floor(self.len2() as nat) as int
    }

    /// Scales by the fixed-point factor `k`: each coordinate becomes
    /// `c * k / SCALE`.
    pub open spec fn scale_div(self, k: int) -> V3i {
        V3i {
            x: (self.x * k) / SCALE as int,
            y: (self.y * k) / SCALE as int,
            z: (self.z * k) / SCALE as int,
        }
    }

    /// Cross product of two fixed-point vectors, rescaled by `SCALE`.
    pub open spec fn cross_div(self, o: V3i) -> V3i {
        V3i {
            x: (self.y * o.z - self.z * o.y) / SCALE as int,
            y: (self.z * o.x - self.x * o.z) / SCALE as int,
            z: (self.x * o.y - self.y * o.x) / SCALE as int,
        }
    }

    /// Projects onto the ground plane: the vertical coordinate is dropped.
    pub open spec fn ground(self) -> V3i {
        V3i { x: self.x, y: 0, z: self.z }
    }

    /// Componentwise clamp to one fixed-point unit.
    pub open spec fn clamp_unit(self) -> V3i {
        V3i {
            x: clamp_s(self.x, -SCALE as int, SCALE as int),
            y: clamp_s(self.y, -SCALE as int, SCALE as int),
            z: clamp_s(self.z, -SCALE as int, SCALE as int),
        }
    }
}

/// Fixed-point 2-vector (screen-space deltas and drag distances).
#[derive(Clone, Copy, Debug, PartialEq, Eq, Structural)]
pub struct Vec2 {
    pub x: i64,
    pub y: i64,
}

impl View for Vec2 {
    type V = V2i;

    open spec fn view(&self) -> V2i {
        V2i { x: self.x as int, y: self.y as int }
    }
}

impl Vec2 {
    /// The zero 2-vector.
    pub fn zero() -> (r: Vec2)
        ensures
            r@ == V2i::zero(),
    {
        Vec2 { x: 0, y: 0 }
    }
}

/// Fixed-point 3-vector (world-space points and directions).
#[derive(Clone, Copy, Debug, PartialEq, Eq, Structural)]
pub struct Vec3 {
    pub x: i64,
    pub y: i64,
    pub z: i64,
}

impl View for Vec3 {
    type V = V3i;

    open spec fn view(&self) -> V3i {
        V3i { x: self.x as int, y: self.y as int, z: self.z as int }
    }
}

impl Vec3 {
    /// The zero 3-vector.
    pub fn zero() -> (r: Vec3)
        ensures
            r@ == V3i::zero(),
    {
        Vec3 { x: 0, y: 0, z: 0 }
    }

    /// Componentwise sum.
    pub fn plus(&self, o: &Vec3) -> (r: Vec3)
        requires
            self@.bounded(VEC_RANGE as int),
            o@.bounded(VEC_RANGE as int),
        ensures
            r@ == self@.plus(o@),
    {
        Vec3 { x: self.x + o.x, y: self.y + o.y, z: self.z + o.z }
    }

    /// Componentwise difference.
    pub fn minus(&self, o: &Vec3) -> (r: Vec3)
        requires
            self@.bounded(VEC_RANGE as int),
            o@.bounded(VEC_RANGE as int),
        ensures
            r@ == self@.minus(o@),
    {
        Vec3 { x: self.x - o.x, y: self.y - o.y, z: self.z - o.z }
    }

    /// Inner product.
    pub fn dot(&self, o: &Vec3) -> (r: i64)
        requires
            self@.bounded(NORM_RANGE as int),
            o@.bounded(NORM_RANGE as int),
        ensures
            r == self@.dot(o@),
    {
        proof {
            lemma_mul_bound(self.x as int, o.x as int, NORM_RANGE as int, NORM_RANGE as int);
            lemma_mul_bound(self.y as int, o.y as int, NORM_RANGE as int, NORM_RANGE as int);
            lemma_mul_bound(self.z as int, o.z as int, NORM_RANGE as int, NORM_RANGE as int);
        }
        self.x * o.x + self.y * o.y + self.z * o.z
    }

    /// Floor of the length.
    pub fn norm(&self) -> (r: i64)
        requires
            self@.bounded(NORM_RANGE as int),
        ensures
            r == self@.norm(),
            0 <= r <= NORM_RANGE * 2,
    {
        let d: i64 = self.dot(self);
        proof {
            lemma_square_nonneg(self.x as int);
            lemma_square_nonneg(self.y as int);
            lemma_square_nonneg(self.z as int);
            lemma_mul_bound(self.x as int, self.x as int, NORM_RANGE as int, NORM_RANGE as int);
            lemma_mul_bound(self.y as int, self.y as int, NORM_RANGE as int, NORM_RANGE as int);
            lemma_mul_bound(self.z as int, self.z as int, NORM_RANGE as int, NORM_RANGE as int);
            lemma_sqrt_floor_bounds(d as nat);
            let s = sqrt_floor(d as nat);
            assert(s <= NORM_RANGE * 2) by (nonlinear_arith)
                requires
                    s * s <= d,
                    d <= 3 * (NORM_RANGE as int * NORM_RANGE as int),
                    NORM_RANGE == 1_200_000_000int,
            ;
        }
        let r: u64 = isqrt(d as u64);
        r as i64
    }

    /// Scales by the fixed-point factor `k`.
    pub fn scale_div(&self, k: i64) -> (r: Vec3)
        requires
            self@.bounded(VEC_RANGE as int),
            -SCALAR_RANGE <= k <= SCALAR_RANGE,
        ensures
            r@ == self@.scale_div(k as int),
    {
        proof {
            lemma_mul_bound(self.x as int, k as int, VEC_RANGE as int, SCALAR_RANGE as int);
            lemma_mul_bound(self.y as int, k as int, VEC_RANGE as int, SCALAR_RANGE as int);
            lemma_mul_bound(self.z as int, k as int, VEC_RANGE as int, SCALAR_RANGE as int);
        }
        Vec3 {
            x: mul_div_scale(self.x, k),
            y: mul_div_scale(self.y, k),
            z: mul_div_scale(self.z, k),
        }
    }

    /// Cross product rescaled by `SCALE`.
    pub fn cross_div(&self, o: &Vec3) -> (r: Vec3)
        requires
            self@.bounded(CROSS_LEFT_RANGE as int),
            o@.bounded(CROSS_RIGHT_RANGE as int),
        ensures
            r@ == self@.cross_div(o@),
    {
        proof {
            lemma_mul_bound(self.x as int, o.x as int, CROSS_LEFT_RANGE as int, CROSS_RIGHT_RANGE as int);
            lemma_mul_bound(self.x as int, o.y as int, CROSS_LEFT_RANGE as int, CROSS_RIGHT_RANGE as int);
            lemma_mul_bound(self.x as int, o.z as int, CROSS_LEFT_RANGE as int, CROSS_RIGHT_RANGE as int);
            lemma_mul_bound(self.y as int, o.x as int, CROSS_LEFT_RANGE as int, CROSS_RIGHT_RANGE as int);
            lemma_mul_bound(self.y as int, o.y as int, CROSS_LEFT_RANGE as int, CROSS_RIGHT_RANGE as int);
            lemma_mul_bound(self.y as int, o.z as int, CROSS_LEFT_RANGE as int, CROSS_RIGHT_RANGE as int);
            lemma_mul_bound(self.z as int, o.x as int, CROSS_LEFT_RANGE as int, CROSS_RIGHT_RANGE as int);
            lemma_mul_bound(self.z as int, o.y as int, CROSS_LEFT_RANGE as int, CROSS_RIGHT_RANGE as int);
            lemma_mul_bound(self.z as int, o.z as int, CROSS_LEFT_RANGE as int, CROSS_RIGHT_RANGE as int);
        }
        Vec3 {
            x: div_scale(self.y * o.z - self.z * o.y),
            y: div_scale(self.z * o.x - self.x * o.z),
            z: div_scale(self.x * o.y - self.y * o.x),
        }
    }

    /// Projects onto the ground plane.
    pub fn ground(&self) -> (r: Vec3)
        ensures
            r@ == self@.ground(),
    {
        Vec3 { x: self.x, y: 0, z: self.z }
    }

    /// Componentwise clamp to one fixed-point unit.
    pub fn clamp_unit(&self) -> (r: Vec3)
        ensures
            r@ == self@.clamp_unit(),
    {
        Vec3 {
            x: clamp(self.x, -SCALE, SCALE),
            y: clamp(self.y, -SCALE, SCALE),
            z: clamp(self.z, -SCALE, SCALE),
        }
    }
}

/// A square is never negative.
pub proof fn lemma_square_nonneg(a: int)
    by (nonlinear_arith)
    ensures
        a * a >= 0,
{
}

} // verus!
