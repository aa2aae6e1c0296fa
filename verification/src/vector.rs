//! 3- and 4-component vectors over `i64` coordinates, with exact models
//! over the mathematical integers. Coordinates are centi-units: 100 is one
//! scene unit. `normalize` divides by the floor square root of the squared
//! magnitude, so a vector along an axis normalizes to a unit axis vector.

use crate::arith::{abs_int, div_i64, isqrt, lemma_mul_bound, sqrt_floor, trunc_div};
use vstd::arithmetic::div_mod::{lemma_div_by_self, lemma_div_is_ordered, lemma_div_pos_is_pos};
use vstd::prelude::*;

verus! {

/// Largest coordinate magnitude accepted by products (dot, cross, scaling).
pub const MAX_COORD: i64 = 1_000_000_000;

/// Largest coordinate magnitude whose squared norm still fits in `i64`.
pub const NORM_MAX: i64 = 1_700_000_000;

/// Largest coordinate magnitude accepted by plain sums.
pub const SUM_MAX: i64 = 4_611_686_018_427_387_903;

/// Mathematical model of a 3-vector: unbounded integer components.
pub struct Vec3V {
    pub x: int,
    pub y: int,
    pub z: int,
}

impl Vec3V {
    pub open spec fn add(self, o: Vec3V) -> Vec3V {
        Vec3V { x: self.x + o.x, y: self.y + o.y, z: self.z + o.z }
    }

    pub open spec fn sub(self, o: Vec3V) -> Vec3V {
        Vec3V { x: self.x - o.x, y: self.y - o.y, z: self.z - o.z }
    }

    pub open spec fn scale(self, k: int) -> Vec3V {
        Vec3V { x: self.x * k, y: self.y * k, z: self.z * k }
    }

    pub open spec fn dot(self, o: Vec3V) -> int {
        self.x * o.x + self.y * o.y + self.z * o.z
    }

    /// Standard Euclidean cross product.
    pub open spec fn cross(self, o: Vec3V) -> Vec3V {
        Vec3V {
            x: self.y * o.z - self.z * o.y,
            y: self.z * o.x - self.x * o.z,
            z: self.x * o.y - self.y * o.x,
        }
    }

    pub open spec fn norm_sq(self) -> int {
        self.dot(self)
    }

    /// Each component divided (toward zero) by the floor square root of
    /// the squared magnitude.
    pub open spec fn normalized(self) -> Vec3V {
        let m = sqrt_floor(self.norm_sq());
        Vec3V {
            x: trunc_div(self.x, m),
            y: trunc_div(self.y, m),
            z: trunc_div(self.z, m),
        }
    }

    pub open spec fn bounded(self, b: int) -> bool {
        &&& -b <= self.x <= b
        &&& -b <= self.y <= b
        &&& -b <= self.z <= b
    }
}

/// Mathematical model of a 4-vector.
pub struct Vec4V {
    pub x: int,
    pub y: int,
    pub z: int,
    pub w: int,
}

impl Vec4V {
    pub open spec fn add(self, o: Vec4V) -> Vec4V {
        Vec4V { x: self.x + o.x, y: self.y + o.y, z: self.z + o.z, w: self.w + o.w }
    }

    pub open spec fn sub(self, o: Vec4V) -> Vec4V {
        Vec4V { x: self.x - o.x, y: self.y - o.y, z: self.z - o.z, w: self.w - o.w }
    }

    pub open spec fn scale(self, k: int) -> Vec4V {
        Vec4V { x: self.x * k, y: self.y * k, z: self.z * k, w: self.w * k }
    }

    /// First three components, dropping the homogeneous coordinate.
    pub open spec fn xyz(self) -> Vec3V {
        Vec3V { x: self.x, y: self.y, z: self.z }
    }

    pub open spec fn bounded(self, b: int) -> bool {
        &&& -b <= self.x <= b
        &&& -b <= self.y <= b
        &&& -b <= self.z <= b
        &&& -b <= self.w <= b
    }
}

/// A 3-component vector of `i64` coordinates.
#[derive(Clone, Copy, Debug, PartialEq, Eq, Structural)]
pub struct Vec3 {
    pub x: i64,
    pub y: i64,
    pub z: i64,
}

impl View for Vec3 {
    type V = Vec3V;

    open spec fn view(&self) -> Vec3V {
        Vec3V { x: self.x as int, y: self.y as int, z: self.z as int }
    }
}

/// A 4-component vector of `i64` coordinates; `w` is the homogeneous
/// coordinate and is 1 on positions.
#[derive(Clone, Copy, Debug, PartialEq, Eq, Structural)]
pub struct Vec4 {
    pub x: i64,
    pub y: i64,
    pub z: i64,
    pub w: i64,
}

impl View for Vec4 {
    type V = Vec4V;

    open spec fn view(&self) -> Vec4V {
        Vec4V { x: self.x as int, y: self.y as int, z: self.z as int, w: self.w as int }
    }
}

impl Vec3 {
    pub fn new(nx: i64, ny: i64, nz: i64) -> (v: Vec3)
        ensures
            v@ == (Vec3V { x: nx as int, y: ny as int, z: nz as int }),
    {
        Vec3 { x: nx, y: ny, z: nz }
    }

    /// The first three components of a 4-vector.
    pub fn from4(other: Vec4) -> (v: Vec3)
        ensures
            v@ == other@.xyz(),
    {
        Vec3 { x: other.x, y: other.y, z: other.z }
    }

    pub fn add(&self, rhs: &Vec3) -> (v: Vec3)
        requires
            self@.bounded(SUM_MAX as int),
            rhs@.bounded(SUM_MAX as int),
        ensures
            v@ == self@.add(rhs@),
    {
        Vec3 { x: self.x + rhs.x, y: self.y + rhs.y, z: self.z + rhs.z }
    }

    pub fn sub(&self, rhs: &Vec3) -> (v: Vec3)
        requires
            self@.bounded(SUM_MAX as int),
            rhs@.bounded(SUM_MAX as int),
        ensures
            v@ == self@.sub(rhs@),
    {
        Vec3 { x: self.x - rhs.x, y: self.y - rhs.y, z: self.z - rhs.z }
    }

    /// Scale by `rhs` componentwise.
    pub fn mul(&self, rhs: i64) -> (v: Vec3)
        requires
            self@.bounded(MAX_COORD as int),
            -MAX_COORD <= rhs <= MAX_COORD,
        ensures
            v@ == self@.scale(rhs as int),
    {
        proof {
            lemma_mul_bound(self.x as int, rhs as int, MAX_COORD as int, MAX_COORD as int);
            lemma_mul_bound(self.y as int, rhs as int, MAX_COORD as int, MAX_COORD as int);
            lemma_mul_bound(self.z as int, rhs as int, MAX_COORD as int, MAX_COORD as int);
        }
        Vec3 { x: self.x * rhs, y: self.y * rhs, z: self.z * rhs }
    }

    pub fn dot(&self, rhs: &Vec3) -> (d: i64)
        requires
            self@.bounded(MAX_COORD as int),
            rhs@.bounded(MAX_COORD as int),
        ensures
            d as int == self@.dot(rhs@),
    {
        proof {
            lemma_mul_bound(self.x as int, rhs.x as int, MAX_COORD as int, MAX_COORD as int);
            lemma_mul_bound(self.y as int, rhs.y as int, MAX_COORD as int, MAX_COORD as int);
            lemma_mul_bound(self.z as int, rhs.z as int, MAX_COORD as int, MAX_COORD as int);
        }
        self.x * rhs.x + self.y * rhs.y + self.z * rhs.z
    }

    pub fn cross(&self, rhs: &Vec3) -> (v: Vec3)
        requires
            self@.bounded(MAX_COORD as int),
            rhs@.bounded(MAX_COORD as int),
        ensures
            v@ == self@.cross(rhs@),
    {
        proof {
            lemma_mul_bound(self.y as int, rhs.z as int, MAX_COORD as int, MAX_COORD as int);
            lemma_mul_bound(self.z as int, rhs.y as int, MAX_COORD as int, MAX_COORD as int);
            lemma_mul_bound(self.z as int, rhs.x as int, MAX_COORD as int, MAX_COORD as int);
            lemma_mul_bound(self.x as int, rhs.z as int, MAX_COORD as int, MAX_COORD as int);
            lemma_mul_bound(self.x as int, rhs.y as int, MAX_COORD as int, MAX_COORD as int);
            lemma_mul_bound(self.y as int, rhs.x as int, MAX_COORD as int, MAX_COORD as int);
        }
        Vec3 {
            x: self.y * rhs.z - self.z * rhs.y,
            y: self.z * rhs.x - self.x * rhs.z,
            z: self.x * rhs.y - self.y * rhs.x,
        }
    }

    /// Divide every component by the floor square root of the squared
    /// magnitude. Undefined (division by zero) on the zero vector, so the
    /// zero vector is excluded; the result's components always lie in
    /// `[-1, 1]`.
    pub fn normalize(&self) -> (v: Vec3)
        requires
            self@.bounded(NORM_MAX as int),
            self@.norm_sq() != 0,
        ensures
            v@ == self@.normalized(),
            v@.bounded(1),
    {
        proof {
            lemma_mul_bound(self.x as int, self.x as int, NORM_MAX as int, NORM_MAX as int);
            lemma_mul_bound(self.y as int, self.y as int, NORM_MAX as int, NORM_MAX as int);
            lemma_mul_bound(self.z as int, self.z as int, NORM_MAX as int, NORM_MAX as int);
            assert(self.x * self.x >= 0) by (nonlinear_arith);
            assert(self.y * self.y >= 0) by (nonlinear_arith);
            assert(self.z * self.z >= 0) by (nonlinear_arith);
        }
        let sq: i64 = self.x * self.x + self.y * self.y + self.z * self.z;
        let m: i64 = isqrt(sq);
        proof {
            assert(sq as int == self@.norm_sq());
            assert(sq >= 1);
            if m == 0 {
                assert(sq < (0 + 1) * (0 + 1));
            }
            assert(m >= 1);
            lemma_unit_quotient(self.x as int, sq as int, m as int);
            lemma_unit_quotient(self.y as int, sq as int, m as int);
            lemma_unit_quotient(self.z as int, sq as int, m as int);
        }
        Vec3 { x: div_i64(self.x, m), y: div_i64(self.y, m), z: div_i64(self.z, m) }
    }

    /// Component by position; positions past 2 are excluded.
    pub fn index(&self, i: usize) -> (c: i64)
        requires
            i < 3,
        ensures
            c == (if i == 0 {
                self.x
            } else if i == 1 {
                self.y
            } else {
                self.z
            }),
    {
        if i == 0 {
            self.x
        } else if i == 1 {
            self.y
        } else {
            self.z
        }
    }
}

/// A component no larger in magnitude than the whole vector's floor-square-
/// root magnitude divides to a quotient in `[-1, 1]`.
proof fn lemma_unit_quotient(x: int, sq: int, m: int)
    requires
        x * x <= sq,
        1 <= m,
        sq < (m + 1) * (m + 1),
    ensures
        -1 <= trunc_div(x, m) <= 1,
{
    assert(abs_int(x) <= m) by (nonlinear_arith)
        requires
            x * x <= sq,
            sq < (m + 1) * (m + 1),
            1 <= m,
    ;
    lemma_div_pos_is_pos(abs_int(x), m);
    lemma_div_is_ordered(abs_int(x), m, m);
    lemma_div_by_self(m);
    assert(0 <= abs_int(x) / m <= 1);
}

impl Vec4 {
    pub fn new(nx: i64, ny: i64, nz: i64, nw: i64) -> (v: Vec4)
        ensures
            v@ == (Vec4V { x: nx as int, y: ny as int, z: nz as int, w: nw as int }),
    {
        Vec4 { x: nx, y: ny, z: nz, w: nw }
    }

    /// Build a 4-vector by asking `f` for each component position in turn.
    pub fn from_fn<F: Fn(u8) -> i64>(f: F) -> (v: Vec4)
        requires
            forall|i: u8| i < 4 ==> f.requires((i,)),
        ensures
            f.ensures((0u8,), v.x),
            f.ensures((1u8,), v.y),
            f.ensures((2u8,), v.z),
            f.ensures((3u8,), v.w),
    {
        let x = f(0);
        let y = f(1);
        let z = f(2);
        let w = f(3);
        Vec4 { x, y, z, w }
    }

    /// The components as an array, in x, y, z, w order.
    pub fn to_vec(&self) -> (a: [i64; 4])
        ensures
            a@ == seq![self.x, self.y, self.z, self.w],
    {
        let a = [self.x, self.y, self.z, self.w];
        proof {
            assert(a@ =~= seq![self.x, self.y, self.z, self.w]);
        }
        a
    }

    /// The components as an array, in x, y, z, w order.
    pub fn to_arr(&self) -> (a: [i64; 4])
        ensures
            a@ == seq![self.x, self.y, self.z, self.w],
    {
        let a = [self.x, self.y, self.z, self.w];
        proof {
            assert(a@ =~= seq![self.x, self.y, self.z, self.w]);
        }
        a
    }

    /// The inverse of `to_arr`.
    pub fn from_array(arr: [i64; 4]) -> (v: Vec4)
        ensures
            v.x == arr@[0],
            v.y == arr@[1],
            v.z == arr@[2],
            v.w == arr@[3],
    {
        Vec4 { x: arr[0], y: arr[1], z: arr[2], w: arr[3] }
    }

    pub fn add(&self, rhs: &Vec4) -> (v: Vec4)
        requires
            self@.bounded(SUM_MAX as int),
            rhs@.bounded(SUM_MAX as int),
        ensures
            v@ == self@.add(rhs@),
    {
        Vec4 { x: self.x + rhs.x, y: self.y + rhs.y, z: self.z + rhs.z, w: self.w + rhs.w }
    }

    pub fn sub(&self, rhs: &Vec4) -> (v: Vec4)
        requires
            self@.bounded(SUM_MAX as int),
            rhs@.bounded(SUM_MAX as int),
        ensures
            v@ == self@.sub(rhs@),
    {
        Vec4 { x: self.x - rhs.x, y: self.y - rhs.y, z: self.z - rhs.z, w: self.w - rhs.w }
    }

    /// Scale by `rhs` componentwise.
    pub fn mul(&self, rhs: i64) -> (v: Vec4)
        requires
            self@.bounded(MAX_COORD as int),
            -MAX_COORD <= rhs <= MAX_COORD,
        ensures
            v@ == self@.scale(rhs as int),
    {
        proof {
            lemma_mul_bound(self.x as int, rhs as int, MAX_COORD as int, MAX_COORD as int);
            lemma_mul_bound(self.y as int, rhs as int, MAX_COORD as int, MAX_COORD as int);
            lemma_mul_bound(self.z as int, rhs as int, MAX_COORD as int, MAX_COORD as int);
            lemma_mul_bound(self.w as int, rhs as int, MAX_COORD as int, MAX_COORD as int);
        }
        Vec4 { x: self.x * rhs, y: self.y * rhs, z: self.z * rhs, w: self.w * rhs }
    }

    /// Component by position; positions past 3 are excluded.
    pub fn index(&self, i: usize) -> (c: i64)
        requires
            i < 4,
        ensures
            c == (if i == 0 {
                self.x
            } else if i == 1 {
                self.y
            } else if i == 2 {
                self.z
            } else {
                self.w
            }),
    {
        if i == 0 {
            self.x
        } else if i == 1 {
            self.y
        } else if i == 2 {
            self.z
        } else {
            self.w
        }
    }
}

} // verus!
