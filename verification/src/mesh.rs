//! A renderable rod or base mesh: static geometry with per-vertex colors,
//! per-triangle generated normals, an upload flag standing for the GPU
//! buffer handles, and a single-slot latest-wins color mailbox fed by the
//! live update path and drained at most once per frame.

use crate::arith::lemma_mul_bound;
use crate::matrix::{Mat3, Mat3V, Mat4, Mat4V, MAX_ENTRY, MAX_M3};
use crate::protocol::Color;
use crate::vector::{Vec3, Vec3V, Vec4, Vec4V, MAX_COORD};
use vstd::prelude::*;

verus! {

/// Largest vertex coordinate magnitude accepted by normal generation.
pub const MESH_MAX: i64 = 14_000;

/// Scale applied to template rod geometry in the plane.
pub const ROD_SCALE: i64 = 2;

/// The raw cross product of the edges of the triangle `(ia, ib, ic)`.
pub open spec fn tri_cross(vs: Seq<Vec4>, ia: int, ib: int, ic: int) -> Vec3V {
    vs[ib]@.xyz().sub(vs[ia]@.xyz()).cross(vs[ic]@.xyz().sub(vs[ia]@.xyz()))
}

/// The face normal of the triangle `(ia, ib, ic)`: the normalized cross
/// product of its two edges out of the first vertex.
pub open spec fn tri_normal(vs: Seq<Vec4>, ia: int, ib: int, ic: int) -> Vec3V {
    tri_cross(vs, ia, ib, ic).normalized()
}

/// Vertex normals after the first `t` triangles of the index list have
/// been processed, starting from all-zero normals. Each triangle writes
/// its face normal to all three of its vertices, so on shared vertices
/// the last writer wins.
pub open spec fn normals_after(vs: Seq<Vec4>, es: Seq<u16>, t: int) -> Seq<Vec3V>
    decreases t,
{
    if t <= 0 {
        Seq::new(vs.len(), |i: int| Vec3V { x: 0, y: 0, z: 0 })
    } else {
        let prev = normals_after(vs, es, t - 1);
        let ia = es[3 * (t - 1)] as int;
        let ib = es[3 * (t - 1) + 1] as int;
        let ic = es[3 * (t - 1) + 2] as int;
        let n = tri_normal(vs, ia, ib, ic);
        prev.update(ia, n).update(ib, n).update(ic, n)
    }
}

/// `normals_after` keeps one normal per vertex.
pub proof fn lemma_normals_after_len(vs: Seq<Vec4>, es: Seq<u16>, t: int)
    requires
        3 * t <= es.len(),
        forall|i: int| 0 <= i < es.len() ==> (#[trigger] es[i] as int) < vs.len(),
    ensures
        normals_after(vs, es, t).len() == vs.len(),
    decreases t,
{
    if t <= 0 {
        assert(normals_after(vs, es, t) == Seq::new(vs.len(), |i: int| Vec3V { x: 0, y: 0, z: 0 }));
    } else {
        lemma_normals_after_len(vs, es, t - 1);
        let prev = normals_after(vs, es, t - 1);
        let ia = es[3 * (t - 1)] as int;
        let ib = es[3 * (t - 1) + 1] as int;
        let ic = es[3 * (t - 1) + 2] as int;
        let n = tri_normal(vs, ia, ib, ic);
        assert(normals_after(vs, es, t) == prev.update(ia, n).update(ib, n).update(ic, n));
    }
}

/// Vertex normals for the whole index list.
pub open spec fn mesh_normals(vs: Seq<Vec4>, es: Seq<u16>) -> Seq<Vec3V> {
    normals_after(vs, es, es.len() as int / 3)
}

/// Geometry fit for normal generation: whole triangles, indices in range,
/// coordinates bounded, and no degenerate triangle.
pub open spec fn geometry_ok(vs: Seq<Vec4>, es: Seq<u16>) -> bool {
    &&& es.len() % 3 == 0
    &&& forall|i: int| 0 <= i < es.len() ==> (es[i] as int) < vs.len()
    &&& forall|i: int| 0 <= i < vs.len() ==> (#[trigger] vs[i])@.bounded(MESH_MAX as int)
    &&& forall|t: int|
        0 <= t < es.len() as int / 3 ==> #[trigger] tri_cross(
            vs,
            es[3 * t] as int,
            es[3 * t + 1] as int,
            es[3 * t + 2] as int,
        ).norm_sq() != 0
}

/// Per-vertex face normals, last writer wins on shared vertices.
#[verifier::rlimit(100)]
pub fn compute_normals(vertices: &Vec<Vec4>, elements: &Vec<u16>) -> (r: Vec<Vec3>)
    requires
        geometry_ok(vertices@, elements@),
    ensures
        r@.len() == vertices@.len(),
        forall|i: int|
            0 <= i < r@.len() ==> (#[trigger] r@[i])@ == mesh_normals(vertices@, elements@)[i],
{
    let mut normals: Vec<Vec3> = Vec::new();
    let mut i: usize = 0;
    while i < vertices.len()
        invariant
            i <= vertices@.len(),
            normals@.len() == i as int,
            forall|j: int| 0 <= j < i as int ==> (#[trigger] normals@[j])@ == (Vec3V { x: 0, y: 0, z: 0 }),
        decreases vertices@.len() - i,
    {
        normals.push(Vec3 { x: 0, y: 0, z: 0 });
        i = i + 1;
    }
    let el_len: usize = elements.len();
    let n_tris: usize = el_len / 3;
    let mut t: usize = 0;
    proof {
        assert(normals@.len() == normals_after(vertices@, elements@, 0).len());
    }
    while t < n_tris
        invariant
            t <= n_tris,
            el_len as int == elements@.len(),
            n_tris as int == elements@.len() as int / 3,
            geometry_ok(vertices@, elements@),
            normals@.len() == vertices@.len(),
            forall|j: int|
                0 <= j < normals@.len() ==> (#[trigger] normals@[j])@ == normals_after(
                    vertices@,
                    elements@,
                    t as int,
                )[j],
        decreases n_tris - t,
    {
        proof {
            assert(3 * (t as int) + 2 < el_len as int);
        }
        let ia: usize = elements[3 * t] as usize;
        let ib: usize = elements[3 * t + 1] as usize;
        let ic: usize = elements[3 * t + 2] as usize;
        let va = Vec3::from4(vertices[ia]);
        let vb = Vec3::from4(vertices[ib]);
        let vc = Vec3::from4(vertices[ic]);
        let e1 = vb.sub(&va);
        let e2 = vc.sub(&va);
        let cr = e1.cross(&e2);
        proof {
            lemma_mul_bound(e1.y as int, e2.z as int, 28_000, 28_000);
            lemma_mul_bound(e1.z as int, e2.y as int, 28_000, 28_000);
            lemma_mul_bound(e1.z as int, e2.x as int, 28_000, 28_000);
            lemma_mul_bound(e1.x as int, e2.z as int, 28_000, 28_000);
            lemma_mul_bound(e1.x as int, e2.y as int, 28_000, 28_000);
            lemma_mul_bound(e1.y as int, e2.x as int, 28_000, 28_000);
            assert(cr@ == tri_cross(vertices@, ia as int, ib as int, ic as int));
        }
        let n = cr.normalize();
        let ghost prev = normals_after(vertices@, elements@, t as int);
        let ghost nn = tri_normal(vertices@, ia as int, ib as int, ic as int);
        normals.set(ia, n);
        normals.set(ib, n);
        normals.set(ic, n);
        proof {
            lemma_normals_after_len(vertices@, elements@, t as int);
            lemma_normals_after_len(vertices@, elements@, t as int + 1);
            assert(n@ == nn);
            assert(normals_after(vertices@, elements@, t as int + 1) == prev.update(
                ia as int,
                nn,
            ).update(ib as int, nn).update(ic as int, nn));
            assert forall|j: int| 0 <= j < normals@.len() implies (#[trigger] normals@[j])@
                == normals_after(vertices@, elements@, t as int + 1)[j] by {
                if j != ia as int && j != ib as int && j != ic as int {
                    assert(normals@[j]@ == prev[j]);
                }
            }
        }
        t = t + 1;
    }
    normals
}

/// For a one-triangle index list, all three vertices carry the
/// triangle's face normal.
#[verifier::rlimit(100)]
pub proof fn lemma_single_triangle(vs: Seq<Vec4>, es: Seq<u16>)
    requires
        es.len() == 3,
        forall|i: int| 0 <= i < 3 ==> (es[i] as int) < vs.len(),
    ensures
        mesh_normals(vs, es)[es[2] as int] == tri_normal(vs, es[0] as int, es[1] as int, es[2] as int),
        es[1] != es[2] ==> mesh_normals(vs, es)[es[1] as int] == tri_normal(
            vs,
            es[0] as int,
            es[1] as int,
            es[2] as int,
        ),
        es[0] != es[1] && es[0] != es[2] ==> mesh_normals(vs, es)[es[0] as int] == tri_normal(
            vs,
            es[0] as int,
            es[1] as int,
            es[2] as int,
        ),
{
    lemma_normals_after_len(vs, es, 0);
    lemma_normals_after_len(vs, es, 1);
    let n = tri_normal(vs, es[0] as int, es[1] as int, es[2] as int);
    let s0 = normals_after(vs, es, 0);
    assert(es.len() as int / 3 == 1);
    assert(normals_after(vs, es, 1) == s0.update(es[0] as int, n).update(es[1] as int, n).update(
        es[2] as int,
        n,
    ));
    assert(mesh_normals(vs, es) == normals_after(vs, es, 1));
}

/// A renderable object: geometry arrays of matching length, a local
/// object-to-world transform, the upload flag standing for GPU-side
/// buffers, and the latest-wins color mailbox.
pub struct Mesh {
    pub vertices: Vec<Vec4>,
    pub colors: Vec<Color>,
    pub normals: Vec<Vec3>,
    pub elements: Vec<u16>,
    pub object2world: Mat4,
    pub pending: Option<Color>,
    pub uploaded: bool,
}

impl Mesh {
    /// Well-formed: the per-vertex arrays agree in length and the index
    /// list addresses real vertices.
    pub open spec fn wf(self) -> bool {
        &&& self.colors@.len() == self.vertices@.len()
        &&& self.normals@.len() == self.vertices@.len()
        &&& self.elements@.len() % 3 == 0
        &&& forall|i: int|
            0 <= i < self.elements@.len() ==> (#[trigger] self.elements@[i] as int)
                < self.vertices@.len()
    }

    /// A mesh from bare positions and a triangle index list: normals are
    /// generated per face, colors start black, the transform starts as
    /// the identity, nothing is uploaded and no update is pending.
    pub fn from_geometry(vertices: Vec<Vec4>, elements: Vec<u16>) -> (m: Mesh)
        requires
            geometry_ok(vertices@, elements@),
        ensures
            m.wf(),
            m.vertices@ == vertices@,
            m.elements@ == elements@,
            m.colors@ == Seq::new(vertices@.len(), |i: int| Color { r: 0, g: 0, b: 0 }),
            m.normals@.len() == vertices@.len(),
            forall|i: int|
                0 <= i < vertices@.len() ==> (#[trigger] m.normals@[i])@ == mesh_normals(
                    vertices@,
                    elements@,
                )[i],
            m.object2world@ == Mat4V::ident(),
            m.pending is None,
            m.uploaded == false,
    {
        let normals = compute_normals(&vertices, &elements);
        let mut colors: Vec<Color> = Vec::new();
        let mut i: usize = 0;
        while i < vertices.len()
            invariant
                i <= vertices@.len(),
                colors@.len() == i as int,
                forall|j: int| 0 <= j < i as int ==> colors@[j] == (Color { r: 0, g: 0, b: 0 }),
            decreases vertices@.len() - i,
        {
            colors.push(Color { r: 0, g: 0, b: 0 });
            i = i + 1;
        }
        proof {
            assert(colors@ =~= Seq::new(vertices@.len(), |i: int| Color { r: 0, g: 0, b: 0 }));
        }
        Mesh {
            vertices,
            colors,
            normals,
            elements,
            object2world: Mat4::ident(),
            pending: None,
            uploaded: false,
        }
    }


    /// The fixed base slab under the rods: a box of eight vertices and
    /// twelve triangles, in centi-units, with generated face normals,
    /// black starting colors and the identity transform.
    pub fn gen_base() -> (m: Mesh)
        ensures
            m.wf(),
            m.vertices@ == seq![
                Vec4 { x: 25i64, y: -26i64, z: -25i64, w: 1i64 },
                Vec4 { x: 25i64, y: -26i64, z: 25i64, w: 1i64 },
                Vec4 { x: -25i64, y: -26i64, z: 25i64, w: 1i64 },
                Vec4 { x: -25i64, y: -26i64, z: -25i64, w: 1i64 },
                Vec4 { x: 25i64, y: 0i64, z: -25i64, w: 1i64 },
                Vec4 { x: 25i64, y: 0i64, z: 25i64, w: 1i64 },
                Vec4 { x: -25i64, y: 0i64, z: 25i64, w: 1i64 },
                Vec4 { x: -25i64, y: 0i64, z: -25i64, w: 1i64 },
            ],
            m.elements@ == seq![
                0u16, 1, 2, 4, 7, 5, 0, 4, 1, 1, 5, 2, 2, 6, 3, 4, 0, 3,
                3, 0, 2, 5, 6, 2, 7, 6, 5, 6, 7, 3, 7, 4, 3, 4, 5, 1,
            ],
            m.colors@ == Seq::new(8nat, |i: int| Color { r: 0, g: 0, b: 0 }),
            forall|i: int|
                0 <= i < 8 ==> (#[trigger] m.normals@[i])@ == mesh_normals(
                    m.vertices@,
                    m.elements@,
                )[i],
            m.object2world@ == Mat4V::ident(),
            m.pending is None,
            m.uploaded == false,
    {
        let vertices: Vec<Vec4> = vec![
            Vec4 { x: 25, y: -26, z: -25, w: 1 },
            Vec4 { x: 25, y: -26, z: 25, w: 1 },
            Vec4 { x: -25, y: -26, z: 25, w: 1 },
            Vec4 { x: -25, y: -26, z: -25, w: 1 },
            Vec4 { x: 25, y: 0, z: -25, w: 1 },
            Vec4 { x: 25, y: 0, z: 25, w: 1 },
            Vec4 { x: -25, y: 0, z: 25, w: 1 },
            Vec4 { x: -25, y: 0, z: -25, w: 1 },
        ];
        let elements: Vec<u16> = vec![
            0, 1, 2, 4, 7, 5, 0, 4, 1, 1, 5, 2, 2, 6, 3, 4, 0, 3,
            3, 0, 2, 5, 6, 2, 7, 6, 5, 6, 7, 3, 7, 4, 3, 4, 5, 1,
        ];
        proof {
            assert forall|t: int| 0 <= t < elements@.len() as int / 3 implies #[trigger] tri_cross(
                vertices@,
                elements@[3 * t] as int,
                elements@[3 * t + 1] as int,
                elements@[3 * t + 2] as int,
            ).norm_sq() != 0 by {
                if t == 0 {
                    assert(tri_cross(vertices@, 0, 1, 2).norm_sq() != 0) by (nonlinear_arith)
                        requires
                            vertices@[0] == (Vec4 { x: 25i64, y: -26i64, z: -25i64, w: 1i64 }),
                            vertices@[1] == (Vec4 { x: 25i64, y: -26i64, z: 25i64, w: 1i64 }),
                            vertices@[2] == (Vec4 { x: -25i64, y: -26i64, z: 25i64, w: 1i64 }),
                    ;
                } else if t == 1 {
                    assert(tri_cross(vertices@, 4, 7, 5).norm_sq() != 0) by (nonlinear_arith)
                        requires
                            vertices@[4] == (Vec4 { x: 25i64, y: 0i64, z: -25i64, w: 1i64 }),
                            vertices@[7] == (Vec4 { x: -25i64, y: 0i64, z: -25i64, w: 1i64 }),
                            vertices@[5] == (Vec4 { x: 25i64, y: 0i64, z: 25i64, w: 1i64 }),
                    ;
                } else if t == 2 {
                    assert(tri_cross(vertices@, 0, 4, 1).norm_sq() != 0) by (nonlinear_arith)
                        requires
                            vertices@[0] == (Vec4 { x: 25i64, y: -26i64, z: -25i64, w: 1i64 }),
                            vertices@[4] == (Vec4 { x: 25i64, y: 0i64, z: -25i64, w: 1i64 }),
                            vertices@[1] == (Vec4 { x: 25i64, y: -26i64, z: 25i64, w: 1i64 }),
                    ;
                } else if t == 3 {
                    assert(tri_cross(vertices@, 1, 5, 2).norm_sq() != 0) by (nonlinear_arith)
                        requires
                            vertices@[1] == (Vec4 { x: 25i64, y: -26i64, z: 25i64, w: 1i64 }),
                            vertices@[5] == (Vec4 { x: 25i64, y: 0i64, z: 25i64, w: 1i64 }),
                            vertices@[2] == (Vec4 { x: -25i64, y: -26i64, z: 25i64, w: 1i64 }),
                    ;
                } else if t == 4 {
                    assert(tri_cross(vertices@, 2, 6, 3).norm_sq() != 0) by (nonlinear_arith)
                        requires
                            vertices@[2] == (Vec4 { x: -25i64, y: -26i64, z: 25i64, w: 1i64 }),
                            vertices@[6] == (Vec4 { x: -25i64, y: 0i64, z: 25i64, w: 1i64 }),
                            vertices@[3] == (Vec4 { x: -25i64, y: -26i64, z: -25i64, w: 1i64 }),
                    ;
                } else if t == 5 {
                    assert(tri_cross(vertices@, 4, 0, 3).norm_sq() != 0) by (nonlinear_arith)
                        requires
                            vertices@[4] == (Vec4 { x: 25i64, y: 0i64, z: -25i64, w: 1i64 }),
                            vertices@[0] == (Vec4 { x: 25i64, y: -26i64, z: -25i64, w: 1i64 }),
                            vertices@[3] == (Vec4 { x: -25i64, y: -26i64, z: -25i64, w: 1i64 }),
                    ;
                } else if t == 6 {
                    assert(tri_cross(vertices@, 3, 0, 2).norm_sq() != 0) by (nonlinear_arith)
                        requires
                            vertices@[3] == (Vec4 { x: -25i64, y: -26i64, z: -25i64, w: 1i64 }),
                            vertices@[0] == (Vec4 { x: 25i64, y: -26i64, z: -25i64, w: 1i64 }),
                            vertices@[2] == (Vec4 { x: -25i64, y: -26i64, z: 25i64, w: 1i64 }),
                    ;
                } else if t == 7 {
                    assert(tri_cross(vertices@, 5, 6, 2).norm_sq() != 0) by (nonlinear_arith)
                        requires
                            vertices@[5] == (Vec4 { x: 25i64, y: 0i64, z: 25i64, w: 1i64 }),
                            vertices@[6] == (Vec4 { x: -25i64, y: 0i64, z: 25i64, w: 1i64 }),
                            vertices@[2] == (Vec4 { x: -25i64, y: -26i64, z: 25i64, w: 1i64 }),
                    ;
                } else if t == 8 {
                    assert(tri_cross(vertices@, 7, 6, 5).norm_sq() != 0) by (nonlinear_arith)
                        requires
                            vertices@[7] == (Vec4 { x: -25i64, y: 0i64, z: -25i64, w: 1i64 }),
                            vertices@[6] == (Vec4 { x: -25i64, y: 0i64, z: 25i64, w: 1i64 }),
                            vertices@[5] == (Vec4 { x: 25i64, y: 0i64, z: 25i64, w: 1i64 }),
                    ;
                } else if t == 9 {
                    assert(tri_cross(vertices@, 6, 7, 3).norm_sq() != 0) by (nonlinear_arith)
                        requires
                            vertices@[6] == (Vec4 { x: -25i64, y: 0i64, z: 25i64, w: 1i64 }),
                            vertices@[7] == (Vec4 { x: -25i64, y: 0i64, z: -25i64, w: 1i64 }),
                            vertices@[3] == (Vec4 { x: -25i64, y: -26i64, z: -25i64, w: 1i64 }),
                    ;
                } else if t == 10 {
                    assert(tri_cross(vertices@, 7, 4, 3).norm_sq() != 0) by (nonlinear_arith)
                        requires
                            vertices@[7] == (Vec4 { x: -25i64, y: 0i64, z: -25i64, w: 1i64 }),
                            vertices@[4] == (Vec4 { x: 25i64, y: 0i64, z: -25i64, w: 1i64 }),
                            vertices@[3] == (Vec4 { x: -25i64, y: -26i64, z: -25i64, w: 1i64 }),
                    ;
                } else if t == 11 {
                    assert(tri_cross(vertices@, 4, 5, 1).norm_sq() != 0) by (nonlinear_arith)
                        requires
                            vertices@[4] == (Vec4 { x: 25i64, y: 0i64, z: -25i64, w: 1i64 }),
                            vertices@[5] == (Vec4 { x: 25i64, y: 0i64, z: 25i64, w: 1i64 }),
                            vertices@[1] == (Vec4 { x: 25i64, y: -26i64, z: 25i64, w: 1i64 }),
                    ;
                }
            }
            assert(geometry_ok(vertices@, elements@));
        }
        Mesh::from_geometry(vertices, elements)
    }

    /// A rod at `(x, y)` with the given height, in centi-units: the
    /// template geometry scaled down in the plane and stretched to the
    /// height, keeping the template's elements and normals; rods start
    /// red, ready for live updates.
    pub fn better_rod(x: i64, y: i64, height: i64, base: Mesh) -> (m: Mesh)
        requires
            base.wf(),
            forall|i: int|
                0 <= i < base.vertices@.len() ==> (#[trigger] base.vertices@[i])@.bounded(
                    MESH_MAX as int,
                ),
            -MESH_MAX <= x <= MESH_MAX,
            -MESH_MAX <= y <= MESH_MAX,
            -MESH_MAX <= height <= MESH_MAX,
        ensures
            m.wf(),
            m.vertices@.len() == base.vertices@.len(),
            forall|i: int|
                0 <= i < base.vertices@.len() ==> (#[trigger] m.vertices@[i])@ == (Vec4V {
                    x: base.vertices@[i]@.x * ROD_SCALE + x,
                    y: base.vertices@[i]@.y * height,
                    z: base.vertices@[i]@.z * ROD_SCALE + y,
                    w: base.vertices@[i]@.w,
                }),
            m.colors@ == Seq::new(base.vertices@.len(), |i: int| Color { r: 255, g: 0, b: 0 }),
            m.normals@ == base.normals@,
            m.elements@ == base.elements@,
            m.object2world == base.object2world,
            m.pending is None,
            m.uploaded == false,
    {
        let mut vertices: Vec<Vec4> = Vec::new();
        let mut colors: Vec<Color> = Vec::new();
        let n = base.vertices.len();
        let mut i: usize = 0;
        while i < n
            invariant
                i <= n,
                n as int == base.vertices@.len(),
                -MESH_MAX <= x <= MESH_MAX,
                -MESH_MAX <= y <= MESH_MAX,
                -MESH_MAX <= height <= MESH_MAX,
                forall|j: int|
                    0 <= j < base.vertices@.len() ==> (#[trigger] base.vertices@[j])@.bounded(
                        MESH_MAX as int,
                    ),
                vertices@.len() == i as int,
                colors@.len() == i as int,
                forall|j: int|
                    0 <= j < i as int ==> (#[trigger] vertices@[j])@ == (Vec4V {
                        x: base.vertices@[j]@.x * ROD_SCALE + x,
                        y: base.vertices@[j]@.y * height,
                        z: base.vertices@[j]@.z * ROD_SCALE + y,
                        w: base.vertices@[j]@.w,
                    }),
                forall|j: int| 0 <= j < i as int ==> colors@[j] == (Color { r: 255, g: 0, b: 0 }),
            decreases n - i,
        {
            let v = base.vertices[i];
            proof {
                lemma_mul_bound(v.y as int, height as int, MESH_MAX as int, MESH_MAX as int);
            }
            vertices.push(Vec4 {
                x: v.x * ROD_SCALE + x,
                y: v.y * height,
                z: v.z * ROD_SCALE + y,
                w: v.w,
            });
            colors.push(Color { r: 255, g: 0, b: 0 });
            i = i + 1;
        }
        proof {
            assert(colors@ =~= Seq::new(base.vertices@.len(), |i: int| Color { r: 255, g: 0, b: 0 }));
        }
        Mesh {
            vertices,
            colors,
            normals: base.normals,
            elements: base.elements,
            object2world: base.object2world,
            pending: None,
            uploaded: false,
        }
    }

    /// Mark the GPU-side buffers as created. The caller must upload at
    /// most once per object: a second upload would leak the old buffers.
    pub fn upload(&mut self)
        requires
            !old(self).uploaded,
        ensures
            final(self).uploaded == true,
            final(self).vertices@ == old(self).vertices@,
            final(self).colors@ == old(self).colors@,
            final(self).normals@ == old(self).normals@,
            final(self).elements@ == old(self).elements@,
            final(self).object2world == old(self).object2world,
            final(self).pending == old(self).pending,
    {
        self.uploaded = true;
    }

    /// Whether the GPU-side buffers exist.
    pub fn uploaded(&self) -> (r: bool)
        ensures
            r == self.uploaded,
    {
        self.uploaded
    }

    /// Compose a further translation into the object-to-world transform.
    pub fn translate(&mut self, translation: Vec3)
        requires
            old(self).object2world@.bounded(MAX_ENTRY as int),
            translation@.bounded(MAX_COORD as int),
        ensures
            final(self).object2world@ == old(self).object2world@.translated(translation@),
            final(self).vertices@ == old(self).vertices@,
            final(self).colors@ == old(self).colors@,
            final(self).normals@ == old(self).normals@,
            final(self).elements@ == old(self).elements@,
            final(self).pending == old(self).pending,
            final(self).uploaded == old(self).uploaded,
    {
        self.object2world = self.object2world.translate(translation);
    }

    /// Leave a color in the mailbox, overwriting any value already there:
    /// the mailbox keeps only the latest update.
    pub fn post_color(&mut self, c: Color)
        ensures
            *final(self) == (Mesh { pending: Some(c), ..*old(self) }),
    {
        self.pending = Some(c);
    }

    /// Non-blocking per-frame poll: when an update is pending, consume it
    /// and broadcast its color to every vertex; when none is pending the
    /// object is left exactly as it was. Returns whether the color array
    /// changed and so must be re-uploaded.
    pub fn poll_update(&mut self) -> (changed: bool)
        ensures
            final(self).vertices@ == old(self).vertices@,
            final(self).normals@ == old(self).normals@,
            final(self).elements@ == old(self).elements@,
            final(self).object2world == old(self).object2world,
            final(self).uploaded == old(self).uploaded,
            match old(self).pending {
                Some(c) => changed == true && final(self).pending is None && final(self).colors@
                    == Seq::new(old(self).colors@.len(), |i: int| c),
                None => changed == false && final(self).pending is None == (old(self).pending
                    is None) && final(self).colors@ == old(self).colors@,
            },
    {
        match self.pending {
            Some(c) => {
                let mut i: usize = 0;
                let n: usize = self.colors.len();
                while i < n
                    invariant
                        i <= n,
                        n as int == self.colors@.len(),
                        self.vertices@ == old(self).vertices@,
                        self.normals@ == old(self).normals@,
                        self.elements@ == old(self).elements@,
                        self.object2world == old(self).object2world,
                        self.uploaded == old(self).uploaded,
                        self.pending == old(self).pending,
                        self.colors@.len() == old(self).colors@.len(),
                        forall|j: int| 0 <= j < i as int ==> self.colors@[j] == c,
                        forall|j: int|
                            i as int <= j < n as int ==> self.colors@[j] == old(self).colors@[j],
                    decreases n - i,
                {
                    self.colors.set(i, c);
                    i = i + 1;
                }
                self.pending = None;
                proof {
                    assert(self.colors@ =~= Seq::new(old(self).colors@.len(), |i: int| c));
                }
                true
            },
            None => false,
        }
    }

    /// The transforms a draw call binds: the final model matrix and the
    /// inverse-transpose normal matrix derived from its upper-left block.
    /// The object must have been uploaded first; calling this on an
    /// object that was never uploaded is a programming error, so it is
    /// excluded here.
    pub fn draw_matrices(&self, model: &Mat4) -> (r: (Mat4, Mat3))
        requires
            self.uploaded,
            Mat3V::from4(model@).bounded(MAX_M3 as int),
            Mat3V::from4(model@).det() != 0,
        ensures
            r.0 == *model,
            r.1@ == Mat3V::from4(model@).trans_inv_spec(),
    {
        let nm = Mat3::from_four(*model).trans_inv();
        (*model, nm)
    }
}

} // verus!
