use light_sculpture::arith::isqrt;
use light_sculpture::matrix::{Mat3, Mat4};
use light_sculpture::vector::{Vec3, Vec4};

#[test]
fn test_mult() {
    let foo = Mat4::new([9, 4, 9, 6], [0, 7, 6, 7], [8, 9, 1, 5], [0, 0, 9, 1]);
    let bar = Mat4::new([0, 7, 1, 6], [6, 6, 3, 6], [2, 2, 3, 9], [0, 9, 9, 1]);
    assert_eq!(
        foo.mul(&bar),
        Mat4::new(
            [8, 58, 97, 60],
            [78, 93, 147, 99],
            [42, 49, 114, 50],
            [72, 144, 72, 109]
        )
    );
}

#[test]
fn test_trans_inv() {
    let mat: Mat3 = Mat3::from_four(Mat4::new(
        [5, 2, 7, 0],
        [4, 7, 6, 0],
        [2, 3, 3, 0],
        [0, 0, 0, 0],
    ));
    let operated = mat.trans_inv();
    assert_eq!(
        operated,
        Mat3::from_four(Mat4::new(
            [3, -0, -2, 0],
            [15, 1, -11, 0],
            [-37, -2, 27, 0],
            [0, 0, 0, 0],
        ))
    );
}

#[test]
fn mult_identity_two_sided() {
    let a = Mat4::new([9, 4, 9, 6], [0, 7, 6, 7], [8, 9, 1, 5], [0, 0, 9, 1]);
    let i = Mat4::ident();
    assert_eq!(a.mul(&i), a);
    assert_eq!(i.mul(&a), a);
}

#[test]
fn mult_associative_concrete() {
    let a = Mat4::new([9, 4, 9, 6], [0, 7, 6, 7], [8, 9, 1, 5], [0, 0, 9, 1]);
    let b = Mat4::new([0, 7, 1, 6], [6, 6, 3, 6], [2, 2, 3, 9], [0, 9, 9, 1]);
    let c = Mat4::new([1, 2, 3, 4], [5, 6, 7, 8], [9, 10, 11, 12], [13, 14, 15, 16]);
    assert_eq!(a.mul(&b).mul(&c), a.mul(&b.mul(&c)));
}

#[test]
fn translate_is_local() {
    // Translating the identity puts the vector in the last column.
    let m = Mat4::ident().translate(Vec3::new(7, -3, 11));
    assert_eq!(m.c3, Vec4::new(7, -3, 11, 1));
    assert_eq!(m.c0, Vec4::new(1, 0, 0, 0));
    // A doubled basis scales the translation: local axes, not world axes.
    let d = Mat4::from_elem(2).translate(Vec3::new(1, 1, 1));
    assert_eq!(d.c3.x, 2);
    assert_eq!(d.c3.y, 2);
    assert_eq!(d.c3.z, 2);
    assert_eq!(d.c3.w, 2);
}

#[test]
fn rotate_quarter_turn_about_z() {
    // sin = 1, cos = 0: a quarter turn about Z maps X to Y.
    let m = Mat4::ident().rotate(1, 0, Vec3::new(0, 0, 1));
    assert_eq!(m.c0, Vec4::new(0, 1, 0, 0));
    assert_eq!(m.c1, Vec4::new(-1, 0, 0, 0));
    assert_eq!(m.c2, Vec4::new(0, 0, 1, 0));
    assert_eq!(m.c3, Vec4::new(0, 0, 0, 1));
}

#[test]
fn rotate_keeps_translation() {
    let m = Mat4::ident().translate(Vec3::new(5, 6, 7)).rotate(1, 0, Vec3::new(0, 0, 1));
    assert_eq!(m.c3, Vec4::new(5, 6, 7, 1));
}

#[test]
fn mul_with_log_matches_standard_product() {
    let a = Mat4::new([9, 4, 9, 6], [0, 7, 6, 7], [8, 9, 1, 5], [0, 0, 9, 1]);
    let b = Mat4::new([0, 7, 1, 6], [6, 6, 3, 6], [2, 2, 3, 9], [0, 9, 9, 1]);
    let t = a.mul_with_log(&b);
    assert_eq!(t, a.mul(&b));
    assert_eq!(t.c0.x, 8);
}

#[test]
fn flat_is_column_major() {
    let m = Mat4::new([1, 2, 3, 4], [5, 6, 7, 8], [9, 10, 11, 12], [13, 14, 15, 16]);
    let f = m.to_flat();
    let expect: [i64; 16] = [1, 2, 3, 4, 5, 6, 7, 8, 9, 10, 11, 12, 13, 14, 15, 16];
    assert_eq!(f, expect);
    let m3 = Mat3::from_four(m);
    assert_eq!(m3.to_flat(), [1, 2, 3, 5, 6, 7, 9, 10, 11]);
}

#[test]
fn zero_and_is_zero() {
    assert!(Mat4::zero().is_zero());
    assert!(!Mat4::ident().is_zero());
}

#[test]
fn matrix_add_entrywise() {
    let a = Mat4::from_elem(3);
    let b = Mat4::from_elem(4);
    assert_eq!(a.add(&b), Mat4::from_elem(7));
}

#[test]
fn col_reads_columns() {
    let m = Mat4::new([1, 2, 3, 4], [5, 6, 7, 8], [9, 10, 11, 12], [13, 14, 15, 16]);
    assert_eq!(m.col(0), Vec4::new(1, 2, 3, 4));
    assert_eq!(m.col(3), Vec4::new(13, 14, 15, 16));
}

#[test]
fn vector_ops() {
    let a = Vec3::new(1, 2, 3);
    let b = Vec3::new(4, 5, 6);
    assert_eq!(a.add(&b), Vec3::new(5, 7, 9));
    assert_eq!(b.sub(&a), Vec3::new(3, 3, 3));
    assert_eq!(a.dot(&b), 32);
    assert_eq!(a.cross(&b), Vec3::new(-3, 6, -3));
    assert_eq!(a.mul(10), Vec3::new(10, 20, 30));
    assert_eq!(Vec3::from4(Vec4::new(9, 8, 7, 1)), Vec3::new(9, 8, 7));
    assert_eq!(a.index(0), 1);
    assert_eq!(a.index(2), 3);
}

#[test]
fn vec4_ops() {
    let a = Vec4::new(1, 2, 3, 4);
    let b = Vec4::new(10, 20, 30, 40);
    assert_eq!(a.add(&b), Vec4::new(11, 22, 33, 44));
    assert_eq!(b.sub(&a), Vec4::new(9, 18, 27, 36));
    assert_eq!(a.mul(2), Vec4::new(2, 4, 6, 8));
    assert_eq!(a.to_arr(), [1, 2, 3, 4]);
    assert_eq!(a.to_vec(), [1, 2, 3, 4]);
    assert_eq!(Vec4::from_array([1, 2, 3, 4]), a);
    assert_eq!(Vec4::from_fn(|i| i as i64 * 2), Vec4::new(0, 2, 4, 6));
    assert_eq!(a.index(3), 4);
}

#[test]
fn normalize_axis_vectors() {
    assert_eq!(Vec3::new(0, 0, 7).normalize(), Vec3::new(0, 0, 1));
    assert_eq!(Vec3::new(-4, 0, 0).normalize(), Vec3::new(-1, 0, 0));
}

#[test]
fn isqrt_values() {
    assert_eq!(isqrt(0), 0);
    assert_eq!(isqrt(24), 4);
    assert_eq!(isqrt(25), 5);
    assert_eq!(isqrt(1_000_000), 1000);
}

#[test]
fn trans_inv_composes_to_identity() {
    // The determinant of this matrix is 1, so the inverse transpose is
    // exact: its transpose times the matrix is the identity.
    let m = Mat3::from_four(Mat4::new(
        [5, 2, 7, 0],
        [4, 7, 6, 0],
        [2, 3, 3, 0],
        [0, 0, 0, 0],
    ));
    let ti = m.trans_inv();
    // transpose(ti) * m, computed columnwise by hand over the flats.
    let tf = ti.to_flat();
    let mf = m.to_flat();
    for row in 0..3 {
        for col in 0..3 {
            // transpose(ti)[row][k] = ti[row-as-col][k-as-row]
            let mut acc: i64 = 0;
            for k in 0..3 {
                acc += tf[3 * row + k] * mf[3 * col + k];
            }
            assert_eq!(acc, if row == col { 1 } else { 0 });
        }
    }
}
