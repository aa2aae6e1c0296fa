//! Algebraic laws of the transform pipeline, stated and proved over the
//! exact integer matrix models.

use crate::arith::{lemma_trunc_div_exact, trunc_div};
use crate::matrix::{Mat3V, Mat4V};
use crate::vector::Vec4V;
use vstd::prelude::*;

verus! {

/// Right distribution of a 4-term sum over a product.
proof fn lemma_distrib_r(p: int, q: int, r: int, s: int, t: int)
    by (nonlinear_arith)
    ensures
        (p + q + r + s) * t == p * t + q * t + r * t + s * t,
{
}

/// Left distribution of a product over a 4-term sum.
proof fn lemma_distrib_l(t: int, p: int, q: int, r: int, s: int)
    by (nonlinear_arith)
    ensures
        t * (p + q + r + s) == t * p + t * q + t * r + t * s,
{
}

/// Associativity of a three-factor product.
proof fn lemma_mul_assoc3(a: int, b: int, v: int)
    by (nonlinear_arith)
    ensures
        (a * b) * v == a * (b * v),
{
}

/// One row of `A` against the columns of `B` and a vector, grouped either
/// way: the scalar identity behind associativity. `ak` is the row of `A`,
/// `blk` entry (column `l`, row `k`) of `B`.
proof fn lemma_row_assoc(
    a0: int,
    a1: int,
    a2: int,
    a3: int,
    b00: int,
    b01: int,
    b02: int,
    b03: int,
    b10: int,
    b11: int,
    b12: int,
    b13: int,
    b20: int,
    b21: int,
    b22: int,
    b23: int,
    b30: int,
    b31: int,
    b32: int,
    b33: int,
    v0: int,
    v1: int,
    v2: int,
    v3: int,
)
    ensures
        (a0 * b00 + a1 * b01 + a2 * b02 + a3 * b03) * v0 + (a0 * b10 + a1 * b11 + a2 * b12 + a3 * b13) * v1 + (a0 * b20 + a1 * b21 + a2 * b22 + a3 * b23) * v2 + (a0 * b30 + a1 * b31 + a2 * b32 + a3 * b33) * v3 == a0 * (b00 * v0 + b10 * v1 + b20 * v2 + b30 * v3) + a1 * (b01 * v0 + b11 * v1 + b21 * v2 + b31 * v3) + a2 * (b02 * v0 + b12 * v1 + b22 * v2 + b32 * v3) + a3 * (b03 * v0 + b13 * v1 + b23 * v2 + b33 * v3),
{
    lemma_distrib_r(a0 * b00, a1 * b01, a2 * b02, a3 * b03, v0);
    lemma_distrib_r(a0 * b10, a1 * b11, a2 * b12, a3 * b13, v1);
    lemma_distrib_r(a0 * b20, a1 * b21, a2 * b22, a3 * b23, v2);
    lemma_distrib_r(a0 * b30, a1 * b31, a2 * b32, a3 * b33, v3);
    lemma_mul_assoc3(a0, b00, v0);
    lemma_mul_assoc3(a1, b01, v0);
    lemma_mul_assoc3(a2, b02, v0);
    lemma_mul_assoc3(a3, b03, v0);
    lemma_mul_assoc3(a0, b10, v1);
    lemma_mul_assoc3(a1, b11, v1);
    lemma_mul_assoc3(a2, b12, v1);
    lemma_mul_assoc3(a3, b13, v1);
    lemma_mul_assoc3(a0, b20, v2);
    lemma_mul_assoc3(a1, b21, v2);
    lemma_mul_assoc3(a2, b22, v2);
    lemma_mul_assoc3(a3, b23, v2);
    lemma_mul_assoc3(a0, b30, v3);
    lemma_mul_assoc3(a1, b31, v3);
    lemma_mul_assoc3(a2, b32, v3);
    lemma_mul_assoc3(a3, b33, v3);
    lemma_distrib_l(a0, b00 * v0, b10 * v1, b20 * v2, b30 * v3);
    lemma_distrib_l(a1, b01 * v0, b11 * v1, b21 * v2, b31 * v3);
    lemma_distrib_l(a2, b02 * v0, b12 * v1, b22 * v2, b32 * v3);
    lemma_distrib_l(a3, b03 * v0, b13 * v1, b23 * v2, b33 * v3);
}

/// Applying a product of matrices is applying the right factor and then
/// the left.
pub proof fn lemma_apply_assoc(a: Mat4V, b: Mat4V, v: Vec4V)
    ensures
        a.mul(b).apply(v) == a.apply(b.apply(v)),
{
    lemma_row_assoc(
        a.c0.x,
        a.c1.x,
        a.c2.x,
        a.c3.x,
        b.c0.x,
        b.c0.y,
        b.c0.z,
        b.c0.w,
        b.c1.x,
        b.c1.y,
        b.c1.z,
        b.c1.w,
        b.c2.x,
        b.c2.y,
        b.c2.z,
        b.c2.w,
        b.c3.x,
        b.c3.y,
        b.c3.z,
        b.c3.w,
        v.x,
        v.y,
        v.z,
        v.w,
    );
    lemma_row_assoc(
        a.c0.y,
        a.c1.y,
        a.c2.y,
        a.c3.y,
        b.c0.x,
        b.c0.y,
        b.c0.z,
        b.c0.w,
        b.c1.x,
        b.c1.y,
        b.c1.z,
        b.c1.w,
        b.c2.x,
        b.c2.y,
        b.c2.z,
        b.c2.w,
        b.c3.x,
        b.c3.y,
        b.c3.z,
        b.c3.w,
        v.x,
        v.y,
        v.z,
        v.w,
    );
    lemma_row_assoc(
        a.c0.z,
        a.c1.z,
        a.c2.z,
        a.c3.z,
        b.c0.x,
        b.c0.y,
        b.c0.z,
        b.c0.w,
        b.c1.x,
        b.c1.y,
        b.c1.z,
        b.c1.w,
        b.c2.x,
        b.c2.y,
        b.c2.z,
        b.c2.w,
        b.c3.x,
        b.c3.y,
        b.c3.z,
        b.c3.w,
        v.x,
        v.y,
        v.z,
        v.w,
    );
    lemma_row_assoc(
        a.c0.w,
        a.c1.w,
        a.c2.w,
        a.c3.w,
        b.c0.x,
        b.c0.y,
        b.c0.z,
        b.c0.w,
        b.c1.x,
        b.c1.y,
        b.c1.z,
        b.c1.w,
        b.c2.x,
        b.c2.y,
        b.c2.z,
        b.c2.w,
        b.c3.x,
        b.c3.y,
        b.c3.z,
        b.c3.w,
        v.x,
        v.y,
        v.z,
        v.w,
    );
}

/// Matrix multiplication of the 4x4 type is associative.
pub proof fn lemma_mul_assoc(a: Mat4V, b: Mat4V, c: Mat4V)
    ensures
        a.mul(b).mul(c) == a.mul(b.mul(c)),
{
    lemma_apply_assoc(a, b, c.c0);
    lemma_apply_assoc(a, b, c.c1);
    lemma_apply_assoc(a, b, c.c2);
    lemma_apply_assoc(a, b, c.c3);
}

/// The identity matrix is a two-sided identity for 4x4 multiplication.
pub proof fn lemma_mul_ident(m: Mat4V)
    ensures
        Mat4V::ident().mul(m) == m,
        m.mul(Mat4V::ident()) == m,
{
}


/// `(p - q) * t` distributed.
proof fn lemma_sub_mul(p: int, q: int, t: int)
    by (nonlinear_arith)
    ensures
        (p - q) * t == p * t - q * t,
{
}

/// `t * (p - q)` distributed.
proof fn lemma_mul_sub(t: int, p: int, q: int)
    by (nonlinear_arith)
    ensures
        t * (p - q) == t * p - t * q,
{
}

/// `(-(p - q)) * t` distributed.
proof fn lemma_neg_sub_mul(p: int, q: int, t: int)
    by (nonlinear_arith)
    ensures
        (-(p - q)) * t == q * t - p * t,
{
}

/// Cofactor expansion, one product entry at a time. `a`..`k` are the
/// matrix entries in row-major order.
proof fn lemma_adj_00(a: int, b: int, c: int, d: int, e: int, f: int, g: int, h: int, k: int)
    ensures
        (e * k - f * h) * a + (-(b * k - c * h)) * d + (b * f - c * e) * g
            == a * (e * k - f * h) - b * (k * d - f * g) + c * (d * h - e * g),
{
    lemma_sub_mul(e * k, f * h, a);
    lemma_neg_sub_mul(b * k, c * h, d);
    lemma_sub_mul(b * f, c * e, g);
    assert((e * k) * a == a * (e * k)) by (nonlinear_arith);
    assert((f * h) * a == a * (f * h)) by (nonlinear_arith);
    assert((c * h) * d == c * (d * h)) by (nonlinear_arith);
    assert((b * k) * d == b * (k * d)) by (nonlinear_arith);
    assert((b * f) * g == b * (f * g)) by (nonlinear_arith);
    assert((c * e) * g == c * (e * g)) by (nonlinear_arith);
    lemma_mul_sub(a, e * k, f * h);
    lemma_mul_sub(b, k * d, f * g);
    lemma_mul_sub(c, d * h, e * g);
}

proof fn lemma_adj_01(a: int, b: int, c: int, d: int, e: int, f: int, g: int, h: int, k: int)
    by (nonlinear_arith)
    ensures
        (-(d * k - f * g)) * a + (a * k - c * g) * d + (-(a * f - c * d)) * g == 0,
{
}

proof fn lemma_adj_02(a: int, b: int, c: int, d: int, e: int, f: int, g: int, h: int, k: int)
    by (nonlinear_arith)
    ensures
        (d * h - e * g) * a + (-(a * h - b * g)) * d + (a * e - b * d) * g == 0,
{
}

proof fn lemma_adj_10(a: int, b: int, c: int, d: int, e: int, f: int, g: int, h: int, k: int)
    by (nonlinear_arith)
    ensures
        (e * k - f * h) * b + (-(b * k - c * h)) * e + (b * f - c * e) * h == 0,
{
}

proof fn lemma_adj_11(a: int, b: int, c: int, d: int, e: int, f: int, g: int, h: int, k: int)
    ensures
        (-(d * k - f * g)) * b + (a * k - c * g) * e + (-(a * f - c * d)) * h
            == a * (e * k - f * h) - b * (k * d - f * g) + c * (d * h - e * g),
{
    lemma_neg_sub_mul(d * k, f * g, b);
    lemma_sub_mul(a * k, c * g, e);
    lemma_neg_sub_mul(a * f, c * d, h);
    assert((f * g) * b == b * (f * g)) by (nonlinear_arith);
    assert((d * k) * b == b * (k * d)) by (nonlinear_arith);
    assert((a * k) * e == a * (e * k)) by (nonlinear_arith);
    assert((c * g) * e == c * (e * g)) by (nonlinear_arith);
    assert((c * d) * h == c * (d * h)) by (nonlinear_arith);
    assert((a * f) * h == a * (f * h)) by (nonlinear_arith);
    lemma_mul_sub(a, e * k, f * h);
    lemma_mul_sub(b, k * d, f * g);
    lemma_mul_sub(c, d * h, e * g);
}

proof fn lemma_adj_12(a: int, b: int, c: int, d: int, e: int, f: int, g: int, h: int, k: int)
    by (nonlinear_arith)
    ensures
        (d * h - e * g) * b + (-(a * h - b * g)) * e + (a * e - b * d) * h == 0,
{
}

proof fn lemma_adj_20(a: int, b: int, c: int, d: int, e: int, f: int, g: int, h: int, k: int)
    by (nonlinear_arith)
    ensures
        (e * k - f * h) * c + (-(b * k - c * h)) * f + (b * f - c * e) * k == 0,
{
}

proof fn lemma_adj_21(a: int, b: int, c: int, d: int, e: int, f: int, g: int, h: int, k: int)
    by (nonlinear_arith)
    ensures
        (-(d * k - f * g)) * c + (a * k - c * g) * f + (-(a * f - c * d)) * k == 0,
{
}

proof fn lemma_adj_22(a: int, b: int, c: int, d: int, e: int, f: int, g: int, h: int, k: int)
    ensures
        (d * h - e * g) * c + (-(a * h - b * g)) * f + (a * e - b * d) * k
            == a * (e * k - f * h) - b * (k * d - f * g) + c * (d * h - e * g),
{
    lemma_sub_mul(d * h, e * g, c);
    lemma_neg_sub_mul(a * h, b * g, f);
    lemma_sub_mul(a * e, b * d, k);
    assert((d * h) * c == c * (d * h)) by (nonlinear_arith);
    assert((e * g) * c == c * (e * g)) by (nonlinear_arith);
    assert((b * g) * f == b * (f * g)) by (nonlinear_arith);
    assert((a * h) * f == a * (f * h)) by (nonlinear_arith);
    assert((a * e) * k == a * (e * k)) by (nonlinear_arith);
    assert((b * d) * k == b * (k * d)) by (nonlinear_arith);
    lemma_mul_sub(a, e * k, f * h);
    lemma_mul_sub(b, k * d, f * g);
    lemma_mul_sub(c, d * h, e * g);
}

/// The adjugate identity for the 3x3 type: the transposed cofactor matrix
/// composed with the matrix gives the determinant on the diagonal.
pub proof fn lemma_adjugate(m: Mat3V)
    ensures
        m.cof().transpose().mul(m) == Mat3V::diag(m.det()),
{
    lemma_adj_00(m.c0.x, m.c1.x, m.c2.x, m.c0.y, m.c1.y, m.c2.y, m.c0.z, m.c1.z, m.c2.z);
    lemma_adj_01(m.c0.x, m.c1.x, m.c2.x, m.c0.y, m.c1.y, m.c2.y, m.c0.z, m.c1.z, m.c2.z);
    lemma_adj_02(m.c0.x, m.c1.x, m.c2.x, m.c0.y, m.c1.y, m.c2.y, m.c0.z, m.c1.z, m.c2.z);
    lemma_adj_10(m.c0.x, m.c1.x, m.c2.x, m.c0.y, m.c1.y, m.c2.y, m.c0.z, m.c1.z, m.c2.z);
    lemma_adj_11(m.c0.x, m.c1.x, m.c2.x, m.c0.y, m.c1.y, m.c2.y, m.c0.z, m.c1.z, m.c2.z);
    lemma_adj_12(m.c0.x, m.c1.x, m.c2.x, m.c0.y, m.c1.y, m.c2.y, m.c0.z, m.c1.z, m.c2.z);
    lemma_adj_20(m.c0.x, m.c1.x, m.c2.x, m.c0.y, m.c1.y, m.c2.y, m.c0.z, m.c1.z, m.c2.z);
    lemma_adj_21(m.c0.x, m.c1.x, m.c2.x, m.c0.y, m.c1.y, m.c2.y, m.c0.z, m.c1.z, m.c2.z);
    lemma_adj_22(m.c0.x, m.c1.x, m.c2.x, m.c0.y, m.c1.y, m.c2.y, m.c0.z, m.c1.z, m.c2.z);
}

/// Left distribution of a product over a 3-term sum.
proof fn lemma_distrib_l3(t: int, p: int, q: int, r: int)
    by (nonlinear_arith)
    ensures
        t * (p + q + r) == t * p + t * q + t * r,
{
}

/// A common nonzero factor cancels out of an equality.
proof fn lemma_mul_cancel(d: int, x: int, y: int)
    by (nonlinear_arith)
    requires
        d != 0,
        d * x == d * y,
    ensures
        x == y,
{
}

/// Cancelling a common nonzero factor out of a three-term combination.
proof fn lemma_cancel3(
    d: int,
    q1: int, q2: int, q3: int,
    e1: int, e2: int, e3: int,
    m1: int, m2: int, m3: int,
    delta: int,
)
    requires
        d != 0,
        d * q1 == e1,
        d * q2 == e2,
        d * q3 == e3,
        e1 * m1 + e2 * m2 + e3 * m3 == d * delta,
    ensures
        q1 * m1 + q2 * m2 + q3 * m3 == delta,
{
    lemma_mul_assoc3(d, q1, m1);
    lemma_mul_assoc3(d, q2, m2);
    lemma_mul_assoc3(d, q3, m3);
    lemma_distrib_l3(d, q1 * m1, q2 * m2, q3 * m3);
    lemma_mul_cancel(d, q1 * m1 + q2 * m2 + q3 * m3, delta);
}

/// `trans_inv` is a true inverse transpose: whenever the determinant is
/// nonzero and divides every cofactor (so the division loses nothing, as
/// with a determinant of 1 or -1), the transpose of the inverse-transpose
/// composed with the matrix is the identity.
pub proof fn lemma_trans_inv_inverse(m: Mat3V)
    requires
        m.det() != 0,
        m.cof().c0.x % m.det() == 0,
        m.cof().c0.y % m.det() == 0,
        m.cof().c0.z % m.det() == 0,
        m.cof().c1.x % m.det() == 0,
        m.cof().c1.y % m.det() == 0,
        m.cof().c1.z % m.det() == 0,
        m.cof().c2.x % m.det() == 0,
        m.cof().c2.y % m.det() == 0,
        m.cof().c2.z % m.det() == 0,
    ensures
        m.trans_inv_spec().transpose().mul(m) == Mat3V::ident(),
{
    let d = m.det();
    let cf = m.cof();
    let q = m.trans_inv_spec();
    lemma_adjugate(m);
    lemma_exact_entry(cf.c0.x, d);
    lemma_exact_entry(cf.c0.y, d);
    lemma_exact_entry(cf.c0.z, d);
    lemma_exact_entry(cf.c1.x, d);
    lemma_exact_entry(cf.c1.y, d);
    lemma_exact_entry(cf.c1.z, d);
    lemma_exact_entry(cf.c2.x, d);
    lemma_exact_entry(cf.c2.y, d);
    lemma_exact_entry(cf.c2.z, d);
    lemma_cancel3(
        d,
        q.c0.x, q.c0.y, q.c0.z,
        cf.c0.x, cf.c0.y, cf.c0.z,
        m.c0.x, m.c0.y, m.c0.z,
        1,
    );
    lemma_cancel3(
        d,
        q.c0.x, q.c0.y, q.c0.z,
        cf.c0.x, cf.c0.y, cf.c0.z,
        m.c1.x, m.c1.y, m.c1.z,
        0,
    );
    lemma_cancel3(
        d,
        q.c0.x, q.c0.y, q.c0.z,
        cf.c0.x, cf.c0.y, cf.c0.z,
        m.c2.x, m.c2.y, m.c2.z,
        0,
    );
    lemma_cancel3(
        d,
        q.c1.x, q.c1.y, q.c1.z,
        cf.c1.x, cf.c1.y, cf.c1.z,
        m.c0.x, m.c0.y, m.c0.z,
        0,
    );
    lemma_cancel3(
        d,
        q.c1.x, q.c1.y, q.c1.z,
        cf.c1.x, cf.c1.y, cf.c1.z,
        m.c1.x, m.c1.y, m.c1.z,
        1,
    );
    lemma_cancel3(
        d,
        q.c1.x, q.c1.y, q.c1.z,
        cf.c1.x, cf.c1.y, cf.c1.z,
        m.c2.x, m.c2.y, m.c2.z,
        0,
    );
    lemma_cancel3(
        d,
        q.c2.x, q.c2.y, q.c2.z,
        cf.c2.x, cf.c2.y, cf.c2.z,
        m.c0.x, m.c0.y, m.c0.z,
        0,
    );
    lemma_cancel3(
        d,
        q.c2.x, q.c2.y, q.c2.z,
        cf.c2.x, cf.c2.y, cf.c2.z,
        m.c1.x, m.c1.y, m.c1.z,
        0,
    );
    lemma_cancel3(
        d,
        q.c2.x, q.c2.y, q.c2.z,
        cf.c2.x, cf.c2.y, cf.c2.z,
        m.c2.x, m.c2.y, m.c2.z,
        1,
    );
    assert(q.transpose().mul(m) =~= Mat3V::ident());
}

/// When `d` divides `e`, the truncated quotient scales back exactly.
proof fn lemma_exact_entry(e: int, d: int)
    requires
        d != 0,
        e % d == 0,
    ensures
        d * trunc_div(e, d) == e,
{
    vstd::arithmetic::div_mod::lemma_fundamental_div_mod(e, d);
    lemma_trunc_div_exact(e, d, e / d);
}

} // verus!
