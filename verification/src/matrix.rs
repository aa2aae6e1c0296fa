//! Column-major 3x3 and 4x4 matrices over `i64` entries with exact integer
//! models. The first index is always the column. Multiplication maps the
//! right-hand operand through the left; `translate` spends the basis columns
//! on the translation vector, so translation is expressed in the matrix's
//! own local axes; `rotate` composes an axis-angle (Rodrigues) rotation with
//! the three basis columns and never touches the translation column.

use crate::arith::{lemma_mul_bound, trunc_div, div_i64};
use crate::vector::{Vec3, Vec3V, Vec4, Vec4V, MAX_COORD};
use vstd::prelude::*;

verus! {

/// Largest entry magnitude accepted by the 4x4 products.
pub const MAX_ENTRY: i64 = 1_000_000_000;

/// Largest entry magnitude accepted by the 3x3 inverse-transpose.
pub const MAX_M3: i64 = 1_000_000;

/// Mathematical model of a 4x4 matrix: four columns of unbounded integers.
pub struct Mat4V {
    pub c0: Vec4V,
    pub c1: Vec4V,
    pub c2: Vec4V,
    pub c3: Vec4V,
}

impl Mat4V {
    /// The matrix applied to a column vector.
    pub open spec fn apply(self, v: Vec4V) -> Vec4V {
        Vec4V {
            x: self.c0.x * v.x + self.c1.x * v.y + self.c2.x * v.z + self.c3.x * v.w,
            y: self.c0.y * v.x + self.c1.y * v.y + self.c2.y * v.z + self.c3.y * v.w,
            z: self.c0.z * v.x + self.c1.z * v.y + self.c2.z * v.z + self.c3.z * v.w,
            w: self.c0.w * v.x + self.c1.w * v.y + self.c2.w * v.z + self.c3.w * v.w,
        }
    }

    /// Standard matrix product: each column of `o` mapped through `self`.
    pub open spec fn mul(self, o: Mat4V) -> Mat4V {
        Mat4V {
            c0: self.apply(o.c0),
            c1: self.apply(o.c1),
            c2: self.apply(o.c2),
            c3: self.apply(o.c3),
        }
    }

    pub open spec fn add(self, o: Mat4V) -> Mat4V {
        Mat4V {
            c0: self.c0.add(o.c0),
            c1: self.c1.add(o.c1),
            c2: self.c2.add(o.c2),
            c3: self.c3.add(o.c3),
        }
    }

    pub open spec fn transpose(self) -> Mat4V {
        Mat4V {
            c0: Vec4V { x: self.c0.x, y: self.c1.x, z: self.c2.x, w: self.c3.x },
            c1: Vec4V { x: self.c0.y, y: self.c1.y, z: self.c2.y, w: self.c3.y },
            c2: Vec4V { x: self.c0.z, y: self.c1.z, z: self.c2.z, w: self.c3.z },
            c3: Vec4V { x: self.c0.w, y: self.c1.w, z: self.c2.w, w: self.c3.w },
        }
    }

    /// Diagonal matrix with `e` on the main diagonal.
    pub open spec fn diag(e: int) -> Mat4V {
        Mat4V {
            c0: Vec4V { x: e, y: 0, z: 0, w: 0 },
            c1: Vec4V { x: 0, y: e, z: 0, w: 0 },
            c2: Vec4V { x: 0, y: 0, z: e, w: 0 },
            c3: Vec4V { x: 0, y: 0, z: 0, w: e },
        }
    }

    pub open spec fn ident() -> Mat4V {
        Mat4V::diag(1)
    }

    pub open spec fn col_at(self, i: int) -> Vec4V {
        if i == 0 {
            self.c0
        } else if i == 1 {
            self.c1
        } else if i == 2 {
            self.c2
        } else {
            self.c3
        }
    }

    /// The last column replaced by the matrix applied to `(v, 1)`; the
    /// basis columns are kept, so the translation is in local axes.
    pub open spec fn translated(self, v: Vec3V) -> Mat4V {
        Mat4V {
            c0: self.c0,
            c1: self.c1,
            c2: self.c2,
            c3: self.apply(Vec4V { x: v.x, y: v.y, z: v.z, w: 1 }),
        }
    }

    /// Axis-angle rotation (sine `s`, cosine `c`, unit axis `a`) composed
    /// with the three basis columns; the translation column is kept.
    pub open spec fn rotated(self, s: int, c: int, a: Vec3V) -> Mat4V {
        let r00 = a.x * a.x * (1 - c) + c;
        let r01 = a.x * a.y * (1 - c) + a.z * s;
        let r02 = a.x * a.z * (1 - c) - a.y * s;
        let r10 = a.y * a.x * (1 - c) - a.z * s;
        let r11 = a.y * a.y * (1 - c) + c;
        let r12 = a.y * a.z * (1 - c) + a.x * s;
        let r20 = a.z * a.x * (1 - c) + a.y * s;
        let r21 = a.z * a.y * (1 - c) - a.x * s;
        let r22 = a.z * a.z * (1 - c) + c;
        Mat4V {
            c0: self.c0.scale(r00).add(self.c1.scale(r01)).add(self.c2.scale(r02)),
            c1: self.c0.scale(r10).add(self.c1.scale(r11)).add(self.c2.scale(r12)),
            c2: self.c0.scale(r20).add(self.c1.scale(r21)).add(self.c2.scale(r22)),
            c3: self.c3,
        }
    }

    pub open spec fn bounded(self, b: int) -> bool {
        &&& self.c0.bounded(b)
        &&& self.c1.bounded(b)
        &&& self.c2.bounded(b)
        &&& self.c3.bounded(b)
    }
}

/// Mathematical model of a 3x3 matrix.
pub struct Mat3V {
    pub c0: Vec3V,
    pub c1: Vec3V,
    pub c2: Vec3V,
}

impl Mat3V {
    pub open spec fn apply(self, v: Vec3V) -> Vec3V {
        Vec3V {
            x: self.c0.x * v.x + self.c1.x * v.y + self.c2.x * v.z,
            y: self.c0.y * v.x + self.c1.y * v.y + self.c2.y * v.z,
            z: self.c0.z * v.x + self.c1.z * v.y + self.c2.z * v.z,
        }
    }

    pub open spec fn mul(self, o: Mat3V) -> Mat3V {
        Mat3V { c0: self.apply(o.c0), c1: self.apply(o.c1), c2: self.apply(o.c2) }
    }

    pub open spec fn transpose(self) -> Mat3V {
        Mat3V {
            c0: Vec3V { x: self.c0.x, y: self.c1.x, z: self.c2.x },
            c1: Vec3V { x: self.c0.y, y: self.c1.y, z: self.c2.y },
            c2: Vec3V { x: self.c0.z, y: self.c1.z, z: self.c2.z },
        }
    }

    pub open spec fn diag(e: int) -> Mat3V {
        Mat3V {
            c0: Vec3V { x: e, y: 0, z: 0 },
            c1: Vec3V { x: 0, y: e, z: 0 },
            c2: Vec3V { x: 0, y: 0, z: e },
        }
    }

    pub open spec fn ident() -> Mat3V {
        Mat3V::diag(1)
    }

    /// The upper-left 3x3 block of a 4x4 matrix.
    pub open spec fn from4(m: Mat4V) -> Mat3V {
        Mat3V { c0: m.c0.xyz(), c1: m.c1.xyz(), c2: m.c2.xyz() }
    }

    /// Determinant by cofactor expansion along the first row.
    pub open spec fn det(self) -> int {
        let a = self.c0.x;
        let b = self.c1.x;
        let c = self.c2.x;
        let d = self.c0.y;
        let e = self.c1.y;
        let f = self.c2.y;
        let g = self.c0.z;
        let h = self.c1.z;
        let k = self.c2.z;
        a * (e * k - f * h) - b * (k * d - f * g) + c * (d * h - e * g)
    }

    /// The cofactor matrix: entry (row i, column j) is the cofactor of the
    /// entry at (row i, column j). Its transpose is the adjugate.
    pub open spec fn cof(self) -> Mat3V {
        let a = self.c0.x;
        let b = self.c1.x;
        let c = self.c2.x;
        let d = self.c0.y;
        let e = self.c1.y;
        let f = self.c2.y;
        let g = self.c0.z;
        let h = self.c1.z;
        let k = self.c2.z;
        Mat3V {
            c0: Vec3V { x: e * k - f * h, y: -(b * k - c * h), z: b * f - c * e },
            c1: Vec3V { x: -(d * k - f * g), y: a * k - c * g, z: -(a * f - c * d) },
            c2: Vec3V { x: d * h - e * g, y: -(a * h - b * g), z: a * e - b * d },
        }
    }

    /// Every entry divided (toward zero) by `d`.
    pub open spec fn scaled_div(self, d: int) -> Mat3V {
        Mat3V {
            c0: Vec3V {
                x: trunc_div(self.c0.x, d),
                y: trunc_div(self.c0.y, d),
                z: trunc_div(self.c0.z, d),
            },
            c1: Vec3V {
                x: trunc_div(self.c1.x, d),
                y: trunc_div(self.c1.y, d),
                z: trunc_div(self.c1.z, d),
            },
            c2: Vec3V {
                x: trunc_div(self.c2.x, d),
                y: trunc_div(self.c2.y, d),
                z: trunc_div(self.c2.z, d),
            },
        }
    }

    /// Transpose of the inverse: the cofactor matrix over the determinant.
    pub open spec fn trans_inv_spec(self) -> Mat3V {
        self.cof().scaled_div(self.det())
    }

    pub open spec fn bounded(self, b: int) -> bool {
        &&& self.c0.bounded(b)
        &&& self.c1.bounded(b)
        &&& self.c2.bounded(b)
    }
}

/// A 4x4 column-major matrix of `i64` entries.
#[derive(Clone, Copy, Debug, PartialEq, Eq, Structural)]
pub struct Mat4 {
    pub c0: Vec4,
    pub c1: Vec4,
    pub c2: Vec4,
    pub c3: Vec4,
}

impl View for Mat4 {
    type V = Mat4V;

    open spec fn view(&self) -> Mat4V {
        Mat4V { c0: self.c0@, c1: self.c1@, c2: self.c2@, c3: self.c3@ }
    }
}

/// A 3x3 column-major matrix of `i64` entries.
#[derive(Clone, Copy, Debug, PartialEq, Eq, Structural)]
pub struct Mat3 {
    pub c0: Vec3,
    pub c1: Vec3,
    pub c2: Vec3,
}

impl View for Mat3 {
    type V = Mat3V;

    open spec fn view(&self) -> Mat3V {
        Mat3V { c0: self.c0@, c1: self.c1@, c2: self.c2@ }
    }
}

/// `m` applied to `v`, with every product bound checked.
fn apply4(m: &Mat4, v: &Vec4) -> (r: Vec4)
    requires
        m@.bounded(MAX_ENTRY as int),
        v@.bounded(MAX_ENTRY as int),
    ensures
        r@ == m@.apply(v@),
{
    proof {
        lemma_mul_bound(m.c0.x as int, v.x as int, MAX_ENTRY as int, MAX_ENTRY as int);
        lemma_mul_bound(m.c1.x as int, v.y as int, MAX_ENTRY as int, MAX_ENTRY as int);
        lemma_mul_bound(m.c2.x as int, v.z as int, MAX_ENTRY as int, MAX_ENTRY as int);
        lemma_mul_bound(m.c3.x as int, v.w as int, MAX_ENTRY as int, MAX_ENTRY as int);
        lemma_mul_bound(m.c0.y as int, v.x as int, MAX_ENTRY as int, MAX_ENTRY as int);
        lemma_mul_bound(m.c1.y as int, v.y as int, MAX_ENTRY as int, MAX_ENTRY as int);
        lemma_mul_bound(m.c2.y as int, v.z as int, MAX_ENTRY as int, MAX_ENTRY as int);
        lemma_mul_bound(m.c3.y as int, v.w as int, MAX_ENTRY as int, MAX_ENTRY as int);
        lemma_mul_bound(m.c0.z as int, v.x as int, MAX_ENTRY as int, MAX_ENTRY as int);
        lemma_mul_bound(m.c1.z as int, v.y as int, MAX_ENTRY as int, MAX_ENTRY as int);
        lemma_mul_bound(m.c2.z as int, v.z as int, MAX_ENTRY as int, MAX_ENTRY as int);
        lemma_mul_bound(m.c3.z as int, v.w as int, MAX_ENTRY as int, MAX_ENTRY as int);
        lemma_mul_bound(m.c0.w as int, v.x as int, MAX_ENTRY as int, MAX_ENTRY as int);
        lemma_mul_bound(m.c1.w as int, v.y as int, MAX_ENTRY as int, MAX_ENTRY as int);
        lemma_mul_bound(m.c2.w as int, v.z as int, MAX_ENTRY as int, MAX_ENTRY as int);
        lemma_mul_bound(m.c3.w as int, v.w as int, MAX_ENTRY as int, MAX_ENTRY as int);
    }
    Vec4 {
        x: m.c0.x * v.x + m.c1.x * v.y + m.c2.x * v.z + m.c3.x * v.w,
        y: m.c0.y * v.x + m.c1.y * v.y + m.c2.y * v.z + m.c3.y * v.w,
        z: m.c0.z * v.x + m.c1.z * v.y + m.c2.z * v.z + m.c3.z * v.w,
        w: m.c0.w * v.x + m.c1.w * v.y + m.c2.w * v.z + m.c3.w * v.w,
    }
}

/// `a*p + b*q + c*r` columnwise, for small coefficients.
fn combine_cols(a: &Vec4, b: &Vec4, c: &Vec4, p: i64, q: i64, r: i64) -> (v: Vec4)
    requires
        a@.bounded(MAX_ENTRY as int),
        b@.bounded(MAX_ENTRY as int),
        c@.bounded(MAX_ENTRY as int),
        -3 <= p <= 3,
        -3 <= q <= 3,
        -3 <= r <= 3,
    ensures
        v@ == a@.scale(p as int).add(b@.scale(q as int)).add(c@.scale(r as int)),
{
    proof {
        lemma_mul_bound(a.x as int, p as int, MAX_ENTRY as int, 3);
        lemma_mul_bound(a.y as int, p as int, MAX_ENTRY as int, 3);
        lemma_mul_bound(a.z as int, p as int, MAX_ENTRY as int, 3);
        lemma_mul_bound(a.w as int, p as int, MAX_ENTRY as int, 3);
        lemma_mul_bound(b.x as int, q as int, MAX_ENTRY as int, 3);
        lemma_mul_bound(b.y as int, q as int, MAX_ENTRY as int, 3);
        lemma_mul_bound(b.z as int, q as int, MAX_ENTRY as int, 3);
        lemma_mul_bound(b.w as int, q as int, MAX_ENTRY as int, 3);
        lemma_mul_bound(c.x as int, r as int, MAX_ENTRY as int, 3);
        lemma_mul_bound(c.y as int, r as int, MAX_ENTRY as int, 3);
        lemma_mul_bound(c.z as int, r as int, MAX_ENTRY as int, 3);
        lemma_mul_bound(c.w as int, r as int, MAX_ENTRY as int, 3);
    }
    Vec4 {
        x: a.x * p + b.x * q + c.x * r,
        y: a.y * p + b.y * q + c.y * r,
        z: a.z * p + b.z * q + c.z * r,
        w: a.w * p + b.w * q + c.w * r,
    }
}

impl Mat4 {
    /// A matrix from its four columns, each given top to bottom.
    pub fn new(col1: [i64; 4], col2: [i64; 4], col3: [i64; 4], col4: [i64; 4]) -> (m: Mat4)
        ensures
            m@.c0 == (Vec4V {
                x: col1@[0] as int,
                y: col1@[1] as int,
                z: col1@[2] as int,
                w: col1@[3] as int,
            }),
            m@.c1 == (Vec4V {
                x: col2@[0] as int,
                y: col2@[1] as int,
                z: col2@[2] as int,
                w: col2@[3] as int,
            }),
            m@.c2 == (Vec4V {
                x: col3@[0] as int,
                y: col3@[1] as int,
                z: col3@[2] as int,
                w: col3@[3] as int,
            }),
            m@.c3 == (Vec4V {
                x: col4@[0] as int,
                y: col4@[1] as int,
                z: col4@[2] as int,
                w: col4@[3] as int,
            }),
    {
        Mat4 {
            c0: Vec4 { x: col1[0], y: col1[1], z: col1[2], w: col1[3] },
            c1: Vec4 { x: col2[0], y: col2[1], z: col2[2], w: col2[3] },
            c2: Vec4 { x: col3[0], y: col3[1], z: col3[2], w: col3[3] },
            c3: Vec4 { x: col4[0], y: col4[1], z: col4[2], w: col4[3] },
        }
    }

    /// The sixteen entries in column-major order, for upload to a
    /// graphics backend.
    pub fn to_flat(&self) -> (a: [i64; 16])
        ensures
            a@ == seq![
                self.c0.x, self.c0.y, self.c0.z, self.c0.w,
                self.c1.x, self.c1.y, self.c1.z, self.c1.w,
                self.c2.x, self.c2.y, self.c2.z, self.c2.w,
                self.c3.x, self.c3.y, self.c3.z, self.c3.w,
            ],
    {
        let a = [
            self.c0.x, self.c0.y, self.c0.z, self.c0.w,
            self.c1.x, self.c1.y, self.c1.z, self.c1.w,
            self.c2.x, self.c2.y, self.c2.z, self.c2.w,
            self.c3.x, self.c3.y, self.c3.z, self.c3.w,
        ];
        proof {
            assert(a@ =~= seq![
                self.c0.x, self.c0.y, self.c0.z, self.c0.w,
                self.c1.x, self.c1.y, self.c1.z, self.c1.w,
                self.c2.x, self.c2.y, self.c2.z, self.c2.w,
                self.c3.x, self.c3.y, self.c3.z, self.c3.w,
            ]);
        }
        a
    }

    /// The all-zero matrix.
    pub fn zero() -> (m: Mat4)
        ensures
            m@ == Mat4V::diag(0),
    {
        Mat4::from_elem(0)
    }

    pub fn is_zero(&self) -> (r: bool)
        ensures
            r == (self@ == Mat4V::diag(0)),
    {
        let r = self.c0.x == 0 && self.c0.y == 0 && self.c0.z == 0 && self.c0.w == 0
            && self.c1.x == 0 && self.c1.y == 0 && self.c1.z == 0 && self.c1.w == 0
            && self.c2.x == 0 && self.c2.y == 0 && self.c2.z == 0 && self.c2.w == 0
            && self.c3.x == 0 && self.c3.y == 0 && self.c3.z == 0 && self.c3.w == 0;
        r
    }

    /// Diagonal matrix with `elem` on the main diagonal.
    pub fn from_elem(elem: i64) -> (m: Mat4)
        ensures
            m@ == Mat4V::diag(elem as int),
    {
        Mat4 {
            c0: Vec4 { x: elem, y: 0, z: 0, w: 0 },
            c1: Vec4 { x: 0, y: elem, z: 0, w: 0 },
            c2: Vec4 { x: 0, y: 0, z: elem, w: 0 },
            c3: Vec4 { x: 0, y: 0, z: 0, w: elem },
        }
    }

    pub fn ident() -> (m: Mat4)
        ensures
            m@ == Mat4V::ident(),
    {
        Mat4::from_elem(1)
    }

    /// Column by position; positions past 3 are excluded.
    pub fn col(&self, i: u8) -> (v: Vec4)
        requires
            i < 4,
        ensures
            v@ == self@.col_at(i as int),
    {
        if i == 0 {
            self.c0
        } else if i == 1 {
            self.c1
        } else if i == 2 {
            self.c2
        } else {
            self.c3
        }
    }

    /// Translation in the matrix's own local axes: the last column becomes
    /// `self` applied to `(v, 1)`; the basis columns are copied unchanged.
    pub fn translate(&self, v: Vec3) -> (m: Mat4)
        requires
            self@.bounded(MAX_ENTRY as int),
            v@.bounded(MAX_COORD as int),
        ensures
            m@ == self@.translated(v@),
    {
        let h = Vec4 { x: v.x, y: v.y, z: v.z, w: 1 };
        Mat4 { c0: self.c0, c1: self.c1, c2: self.c2, c3: apply4(self, &h) }
    }

    /// Standard matrix product: `m`'s columns mapped through `self`.
    pub fn mul(&self, m: &Mat4) -> (r: Mat4)
        requires
            self@.bounded(MAX_ENTRY as int),
            m@.bounded(MAX_ENTRY as int),
        ensures
            r@ == self@.mul(m@),
    {
        Mat4 {
            c0: apply4(self, &m.c0),
            c1: apply4(self, &m.c1),
            c2: apply4(self, &m.c2),
            c3: apply4(self, &m.c3),
        }
    }

    /// The standard matrix product, same value as `mul`; the logging half
    /// of its name is per-entry console tracing, which is I/O and stays at
    /// the binary's edge.
    pub fn mul_with_log(&self, rhs: &Mat4) -> (r: Mat4)
        requires
            self@.bounded(MAX_ENTRY as int),
            rhs@.bounded(MAX_ENTRY as int),
        ensures
            r@ == self@.mul(rhs@),
    {
        self.mul(rhs)
    }

    /// Entrywise sum.
    pub fn add(&self, rhs: &Mat4) -> (r: Mat4)
        requires
            self@.bounded(MAX_ENTRY as int),
            rhs@.bounded(MAX_ENTRY as int),
        ensures
            r@ == self@.add(rhs@),
    {
        Mat4 {
            c0: Vec4 {
                x: self.c0.x + rhs.c0.x,
                y: self.c0.y + rhs.c0.y,
                z: self.c0.z + rhs.c0.z,
                w: self.c0.w + rhs.c0.w,
            },
            c1: Vec4 {
                x: self.c1.x + rhs.c1.x,
                y: self.c1.y + rhs.c1.y,
                z: self.c1.z + rhs.c1.z,
                w: self.c1.w + rhs.c1.w,
            },
            c2: Vec4 {
                x: self.c2.x + rhs.c2.x,
                y: self.c2.y + rhs.c2.y,
                z: self.c2.z + rhs.c2.z,
                w: self.c2.w + rhs.c2.w,
            },
            c3: Vec4 {
                x: self.c3.x + rhs.c3.x,
                y: self.c3.y + rhs.c3.y,
                z: self.c3.z + rhs.c3.z,
                w: self.c3.w + rhs.c3.w,
            },
        }
    }

    /// Axis-angle rotation composed with the basis columns. The axis must
    /// be pre-normalized by the caller and the sine/cosine pair must lie on
    /// the unit circle, so exactly the quarter-turn rotations are
    /// representable over the integers. Rotation never introduces new
    /// translation: the last column is copied unchanged.
    pub fn rotate(&self, sin: i64, cos: i64, axis: Vec3) -> (r: Mat4)
        requires
            self@.bounded(MAX_ENTRY as int),
            axis@.norm_sq() == 1,
            sin * sin + cos * cos == 1,
        ensures
            r@ == self@.rotated(sin as int, cos as int, axis@),
    {
        proof {
            lemma_unit3(axis.x as int, axis.y as int, axis.z as int);
            lemma_unit2(sin as int, cos as int);
            let x = axis.x as int;
            let y = axis.y as int;
            let z = axis.z as int;
            let s = sin as int;
            let c = cos as int;
            lemma_mul_bound(x, x, 1, 1);
            lemma_mul_bound(x, y, 1, 1);
            lemma_mul_bound(x, z, 1, 1);
            lemma_mul_bound(y, x, 1, 1);
            lemma_mul_bound(y, y, 1, 1);
            lemma_mul_bound(y, z, 1, 1);
            lemma_mul_bound(z, x, 1, 1);
            lemma_mul_bound(z, y, 1, 1);
            lemma_mul_bound(z, z, 1, 1);
            lemma_mul_bound(x * x, 1 - c, 1, 2);
            lemma_mul_bound(x * y, 1 - c, 1, 2);
            lemma_mul_bound(x * z, 1 - c, 1, 2);
            lemma_mul_bound(y * x, 1 - c, 1, 2);
            lemma_mul_bound(y * y, 1 - c, 1, 2);
            lemma_mul_bound(y * z, 1 - c, 1, 2);
            lemma_mul_bound(z * x, 1 - c, 1, 2);
            lemma_mul_bound(z * y, 1 - c, 1, 2);
            lemma_mul_bound(z * z, 1 - c, 1, 2);
            lemma_mul_bound(x, s, 1, 1);
            lemma_mul_bound(y, s, 1, 1);
            lemma_mul_bound(z, s, 1, 1);
        }
        let r00: i64 = axis.x * axis.x * (1 - cos) + cos;
        let r01: i64 = axis.x * axis.y * (1 - cos) + axis.z * sin;
        let r02: i64 = axis.x * axis.z * (1 - cos) - axis.y * sin;
        let r10: i64 = axis.y * axis.x * (1 - cos) - axis.z * sin;
        let r11: i64 = axis.y * axis.y * (1 - cos) + cos;
        let r12: i64 = axis.y * axis.z * (1 - cos) + axis.x * sin;
        let r20: i64 = axis.z * axis.x * (1 - cos) + axis.y * sin;
        let r21: i64 = axis.z * axis.y * (1 - cos) - axis.x * sin;
        let r22: i64 = axis.z * axis.z * (1 - cos) + cos;
        Mat4 {
            c0: combine_cols(&self.c0, &self.c1, &self.c2, r00, r01, r02),
            c1: combine_cols(&self.c0, &self.c1, &self.c2, r10, r11, r12),
            c2: combine_cols(&self.c0, &self.c1, &self.c2, r20, r21, r22),
            c3: self.c3,
        }
    }
}

/// Components of an integer unit 3-vector lie in `[-1, 1]`, and so do all
/// pairwise products of components.
proof fn lemma_unit3(x: int, y: int, z: int)
    by (nonlinear_arith)
    requires
        x * x + y * y + z * z == 1,
    ensures
        -1 <= x <= 1,
        -1 <= y <= 1,
        -1 <= z <= 1,
        -1 <= x * y <= 1,
        -1 <= y * z <= 1,
        -1 <= x * z <= 1,
        -1 <= x * x <= 1,
        -1 <= y * y <= 1,
        -1 <= z * z <= 1,
{
}

/// An integer point on the unit circle has both coordinates in `[-1, 1]`.
proof fn lemma_unit2(s: int, c: int)
    by (nonlinear_arith)
    requires
        s * s + c * c == 1,
    ensures
        -1 <= s <= 1,
        -1 <= c <= 1,
{
}


/// Composing a unit-axis, unit-pair rotation grows the entry bound by at
/// most a factor of nine.
pub proof fn lemma_rotated_bounded(m: Mat4V, s: int, c: int, a: Vec3V, b: int)
    requires
        0 <= b,
        m.bounded(b),
        a.norm_sq() == 1,
        s * s + c * c == 1,
    ensures
        m.rotated(s, c, a).bounded(9 * b),
{
    lemma_unit3(a.x, a.y, a.z);
    lemma_unit2(s, c);
    let x = a.x;
    let y = a.y;
    let z = a.z;
    lemma_mul_bound(x, x, 1, 1);
    lemma_mul_bound(x, y, 1, 1);
    lemma_mul_bound(x, z, 1, 1);
    lemma_mul_bound(y, x, 1, 1);
    lemma_mul_bound(y, y, 1, 1);
    lemma_mul_bound(y, z, 1, 1);
    lemma_mul_bound(z, x, 1, 1);
    lemma_mul_bound(z, y, 1, 1);
    lemma_mul_bound(z, z, 1, 1);
    lemma_mul_bound(x * x, 1 - c, 1, 2);
    lemma_mul_bound(x * y, 1 - c, 1, 2);
    lemma_mul_bound(x * z, 1 - c, 1, 2);
    lemma_mul_bound(y * x, 1 - c, 1, 2);
    lemma_mul_bound(y * y, 1 - c, 1, 2);
    lemma_mul_bound(y * z, 1 - c, 1, 2);
    lemma_mul_bound(z * x, 1 - c, 1, 2);
    lemma_mul_bound(z * y, 1 - c, 1, 2);
    lemma_mul_bound(z * z, 1 - c, 1, 2);
    lemma_mul_bound(x, s, 1, 1);
    lemma_mul_bound(y, s, 1, 1);
    lemma_mul_bound(z, s, 1, 1);
    let r00 = x * x * (1 - c) + c;
    let r01 = x * y * (1 - c) + z * s;
    let r02 = x * z * (1 - c) - y * s;
    let r10 = y * x * (1 - c) - z * s;
    let r11 = y * y * (1 - c) + c;
    let r12 = y * z * (1 - c) + x * s;
    let r20 = z * x * (1 - c) + y * s;
    let r21 = z * y * (1 - c) - x * s;
    let r22 = z * z * (1 - c) + c;
    lemma_mul_bound(m.c0.x, r00, b, 3);
    lemma_mul_bound(m.c0.y, r00, b, 3);
    lemma_mul_bound(m.c0.z, r00, b, 3);
    lemma_mul_bound(m.c0.w, r00, b, 3);
    lemma_mul_bound(m.c1.x, r01, b, 3);
    lemma_mul_bound(m.c1.y, r01, b, 3);
    lemma_mul_bound(m.c1.z, r01, b, 3);
    lemma_mul_bound(m.c1.w, r01, b, 3);
    lemma_mul_bound(m.c2.x, r02, b, 3);
    lemma_mul_bound(m.c2.y, r02, b, 3);
    lemma_mul_bound(m.c2.z, r02, b, 3);
    lemma_mul_bound(m.c2.w, r02, b, 3);
    lemma_mul_bound(m.c0.x, r10, b, 3);
    lemma_mul_bound(m.c0.y, r10, b, 3);
    lemma_mul_bound(m.c0.z, r10, b, 3);
    lemma_mul_bound(m.c0.w, r10, b, 3);
    lemma_mul_bound(m.c1.x, r11, b, 3);
    lemma_mul_bound(m.c1.y, r11, b, 3);
    lemma_mul_bound(m.c1.z, r11, b, 3);
    lemma_mul_bound(m.c1.w, r11, b, 3);
    lemma_mul_bound(m.c2.x, r12, b, 3);
    lemma_mul_bound(m.c2.y, r12, b, 3);
    lemma_mul_bound(m.c2.z, r12, b, 3);
    lemma_mul_bound(m.c2.w, r12, b, 3);
    lemma_mul_bound(m.c0.x, r20, b, 3);
    lemma_mul_bound(m.c0.y, r20, b, 3);
    lemma_mul_bound(m.c0.z, r20, b, 3);
    lemma_mul_bound(m.c0.w, r20, b, 3);
    lemma_mul_bound(m.c1.x, r21, b, 3);
    lemma_mul_bound(m.c1.y, r21, b, 3);
    lemma_mul_bound(m.c1.z, r21, b, 3);
    lemma_mul_bound(m.c1.w, r21, b, 3);
    lemma_mul_bound(m.c2.x, r22, b, 3);
    lemma_mul_bound(m.c2.y, r22, b, 3);
    lemma_mul_bound(m.c2.z, r22, b, 3);
    lemma_mul_bound(m.c2.w, r22, b, 3);
}

impl Mat3 {
    /// The upper-left 3x3 block of a 4x4 matrix.
    pub fn from_four(other: Mat4) -> (m: Mat3)
        ensures
            m@ == Mat3V::from4(other@),
    {
        Mat3 {
            c0: Vec3 { x: other.c0.x, y: other.c0.y, z: other.c0.z },
            c1: Vec3 { x: other.c1.x, y: other.c1.y, z: other.c1.z },
            c2: Vec3 { x: other.c2.x, y: other.c2.y, z: other.c2.z },
        }
    }

    /// The nine entries in column-major order, for upload to a graphics
    /// backend.
    pub fn to_flat(&self) -> (a: [i64; 9])
        ensures
            a@ == seq![
                self.c0.x, self.c0.y, self.c0.z,
                self.c1.x, self.c1.y, self.c1.z,
                self.c2.x, self.c2.y, self.c2.z,
            ],
    {
        let a = [
            self.c0.x, self.c0.y, self.c0.z,
            self.c1.x, self.c1.y, self.c1.z,
            self.c2.x, self.c2.y, self.c2.z,
        ];
        proof {
            assert(a@ =~= seq![
                self.c0.x, self.c0.y, self.c0.z,
                self.c1.x, self.c1.y, self.c1.z,
                self.c2.x, self.c2.y, self.c2.z,
            ]);
        }
        a
    }

    /// Every entry divided (toward zero) by `rhs`.
    pub fn div(&self, rhs: i64) -> (m: Mat3)
        requires
            rhs != 0,
            rhs != i64::MIN,
            self@.bounded(SAFE_DIVIDEND as int),
        ensures
            m@ == self@.scaled_div(rhs as int),
    {
        Mat3 {
            c0: Vec3 {
                x: div_i64(self.c0.x, rhs),
                y: div_i64(self.c0.y, rhs),
                z: div_i64(self.c0.z, rhs),
            },
            c1: Vec3 {
                x: div_i64(self.c1.x, rhs),
                y: div_i64(self.c1.y, rhs),
                z: div_i64(self.c1.z, rhs),
            },
            c2: Vec3 {
                x: div_i64(self.c2.x, rhs),
                y: div_i64(self.c2.y, rhs),
                z: div_i64(self.c2.z, rhs),
            },
        }
    }

    /// Transpose of the inverse by the adjugate-over-determinant method,
    /// used to transform normal vectors. The determinant must be nonzero;
    /// each cofactor is divided by it rounding toward zero, so the result
    /// is the exact inverse transpose whenever the determinant divides
    /// every cofactor (in particular when it is 1 or -1).
    pub fn trans_inv(&self) -> (m: Mat3)
        requires
            self@.bounded(MAX_M3 as int),
            self@.det() != 0,
        ensures
            m@ == self@.trans_inv_spec(),
    {
        let a = self.c0.x;
        let b = self.c1.x;
        let c = self.c2.x;
        let d = self.c0.y;
        let e = self.c1.y;
        let f = self.c2.y;
        let g = self.c0.z;
        let h = self.c1.z;
        let k = self.c2.z;
        proof {
            lemma_mul_bound(e as int, k as int, MAX_M3 as int, MAX_M3 as int);
            lemma_mul_bound(f as int, h as int, MAX_M3 as int, MAX_M3 as int);
            lemma_mul_bound(k as int, d as int, MAX_M3 as int, MAX_M3 as int);
            lemma_mul_bound(d as int, k as int, MAX_M3 as int, MAX_M3 as int);
            lemma_mul_bound(f as int, g as int, MAX_M3 as int, MAX_M3 as int);
            lemma_mul_bound(d as int, h as int, MAX_M3 as int, MAX_M3 as int);
            lemma_mul_bound(e as int, g as int, MAX_M3 as int, MAX_M3 as int);
            lemma_mul_bound(b as int, k as int, MAX_M3 as int, MAX_M3 as int);
            lemma_mul_bound(c as int, h as int, MAX_M3 as int, MAX_M3 as int);
            lemma_mul_bound(b as int, f as int, MAX_M3 as int, MAX_M3 as int);
            lemma_mul_bound(c as int, e as int, MAX_M3 as int, MAX_M3 as int);
            lemma_mul_bound(a as int, k as int, MAX_M3 as int, MAX_M3 as int);
            lemma_mul_bound(c as int, g as int, MAX_M3 as int, MAX_M3 as int);
            lemma_mul_bound(a as int, f as int, MAX_M3 as int, MAX_M3 as int);
            lemma_mul_bound(c as int, d as int, MAX_M3 as int, MAX_M3 as int);
            lemma_mul_bound(a as int, h as int, MAX_M3 as int, MAX_M3 as int);
            lemma_mul_bound(b as int, g as int, MAX_M3 as int, MAX_M3 as int);
            lemma_mul_bound(a as int, e as int, MAX_M3 as int, MAX_M3 as int);
            lemma_mul_bound(b as int, d as int, MAX_M3 as int, MAX_M3 as int);
        }
        let ap: i64 = e * k - f * h;
        let bp: i64 = -(d * k - f * g);
        let cp: i64 = d * h - e * g;
        let dp: i64 = -(b * k - c * h);
        let ep: i64 = a * k - c * g;
        let fp: i64 = -(a * h - b * g);
        let gp: i64 = b * f - c * e;
        let hp: i64 = -(a * f - c * d);
        let kp: i64 = a * e - b * d;
        proof {
            lemma_mul_bound(a as int, ap as int, MAX_M3 as int, 2_000_000_000_000);
            lemma_mul_bound(b as int, (k * d - f * g) as int, MAX_M3 as int, 2_000_000_000_000);
            lemma_mul_bound(c as int, cp as int, MAX_M3 as int, 2_000_000_000_000);
        }
        let det: i64 = a * ap - b * (k * d - f * g) + c * cp;
        proof {
            assert(det as int == self@.det());
        }
        Mat3 {
            c0: Vec3 { x: div_i64(ap, det), y: div_i64(dp, det), z: div_i64(gp, det) },
            c1: Vec3 { x: div_i64(bp, det), y: div_i64(ep, det), z: div_i64(hp, det) },
            c2: Vec3 { x: div_i64(cp, det), y: div_i64(fp, det), z: div_i64(kp, det) },
        }
    }
}

/// Largest dividend magnitude `div` accepts.
pub const SAFE_DIVIDEND: i64 = 4_611_686_018_427_387_903;

} // verus!
