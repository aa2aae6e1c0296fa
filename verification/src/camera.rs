//! Scene and camera state: the ordered renderable objects, the emitter
//! table routing wire records to objects, additive translation and
//! quarter-turn rotation deltas, and the per-frame model and view matrix
//! composition. Rotations always compose X then Y then Z; that order is
//! load-bearing and fixed here in one place.

use crate::arith::{lemma_mul_bound, lemma_quarter_unit, qcos, qsin};
use crate::matrix::{lemma_rotated_bounded, Mat4, Mat4V};
use crate::mesh::Mesh;
use crate::protocol::Record;
use crate::vector::{Vec3, Vec3V, Vec4, Vec4V};
use vstd::prelude::*;

verus! {

/// Largest camera coordinate magnitude.
pub const CAM_MAX: i64 = 1_000_000;

/// The model matrix from accumulated translation and quarter-turn
/// rotation counts: translate, then rotate about X, then Y, then Z.
pub open spec fn model_of(t: Vec3V, r: Vec3V) -> Mat4V {
    Mat4V::ident().translated(t).rotated(qsin(r.x), qcos(r.x), Vec3V { x: 1, y: 0, z: 0 }).rotated(
        qsin(r.y),
        qcos(r.y),
        Vec3V { x: 0, y: 1, z: 0 },
    ).rotated(qsin(r.z), qcos(r.z), Vec3V { x: 0, y: 0, z: 1 })
}

/// The classic look-at view matrix: the orthonormal-ish basis rows built
/// from forward, right and true-up, with the translation row holding the
/// negated projections of the eye.
pub open spec fn view_of(eye: Vec3V, center: Vec3V, up: Vec3V) -> Mat4V {
    let f = center.sub(eye).normalized();
    let s = f.cross(up.normalized()).normalized();
    let u = s.cross(f);
    Mat4V {
        c0: Vec4V { x: s.x, y: u.x, z: -f.x, w: 0 },
        c1: Vec4V { x: s.y, y: u.y, z: -f.y, w: 0 },
        c2: Vec4V { x: s.z, y: u.z, z: -f.z, w: 0 },
        c3: Vec4V { x: -s.dot(eye), y: -u.dot(eye), z: f.dot(eye), w: 1 },
    }
}

/// What routing one wire record does to the scene's objects: a record
/// addressed to a bound emitter overwrites that object's mailbox with the
/// record's color; any other record changes nothing.
pub open spec fn deliver_one(meshes: Seq<Mesh>, emitters: Seq<usize>, rec: Record) -> Seq<Mesh> {
    if (rec.emitter as int) < emitters.len() {
        let mi = emitters[rec.emitter as int] as int;
        meshes.update(mi, Mesh { pending: Some(rec.color), ..meshes[mi] })
    } else {
        meshes
    }
}

/// Routing a whole frame: every record applied in order, so on one
/// emitter the last record of the frame wins.
pub open spec fn deliver_all(meshes: Seq<Mesh>, emitters: Seq<usize>, recs: Seq<Record>) -> Seq<
    Mesh,
>
    decreases recs.len(),
{
    if recs.len() <= 0 {
        meshes
    } else {
        deliver_one(deliver_all(meshes, emitters, recs.drop_last()), emitters, recs.last())
    }
}

/// The camera and the scene it renders.
pub struct Camera {
    pub translation: Vec3,
    pub rotation: Vec3,
    pub eye: Vec3,
    pub center: Vec3,
    pub up: Vec3,
    pub meshes: Vec<Mesh>,
    pub emitters: Vec<usize>,
}

impl Camera {
    /// Well-formed: every emitter id maps to a real object, and the
    /// camera state is in range.
    pub open spec fn wf(self) -> bool {
        &&& forall|e: int|
            0 <= e < self.emitters@.len() ==> (#[trigger] self.emitters@[e] as int)
                < self.meshes@.len()
        &&& self.translation@.bounded(CAM_MAX as int)
        &&& self.rotation@.bounded(CAM_MAX as int)
        &&& self.eye@.bounded(CAM_MAX as int)
        &&& self.center@.bounded(CAM_MAX as int)
        &&& self.up@.bounded(CAM_MAX as int)
    }

    /// An empty scene with the camera at the origin.
    pub fn new() -> (c: Camera)
        ensures
            c.wf(),
            c.translation@ == (Vec3V { x: 0, y: 0, z: 0 }),
            c.rotation@ == (Vec3V { x: 0, y: 0, z: 0 }),
            c.eye@ == (Vec3V { x: 0, y: 0, z: 0 }),
            c.center@ == (Vec3V { x: 0, y: 0, z: 0 }),
            c.up@ == (Vec3V { x: 0, y: 0, z: 0 }),
            c.meshes@.len() == 0,
            c.emitters@.len() == 0,
    {
        Camera {
            translation: Vec3 { x: 0, y: 0, z: 0 },
            rotation: Vec3 { x: 0, y: 0, z: 0 },
            eye: Vec3 { x: 0, y: 0, z: 0 },
            center: Vec3 { x: 0, y: 0, z: 0 },
            up: Vec3 { x: 0, y: 0, z: 0 },
            meshes: Vec::new(),
            emitters: Vec::new(),
        }
    }

    /// Add a camera translation delta; deltas accumulate per poll, not
    /// per unit of time.
    pub fn translate(&mut self, translation: Vec3)
        requires
            old(self).wf(),
            -CAM_MAX <= old(self).translation.x + translation.x <= CAM_MAX,
            -CAM_MAX <= old(self).translation.y + translation.y <= CAM_MAX,
            -CAM_MAX <= old(self).translation.z + translation.z <= CAM_MAX,
        ensures
            final(self).wf(),
            final(self).translation@ == old(self).translation@.add(translation@),
            final(self).rotation == old(self).rotation,
            final(self).eye == old(self).eye,
            final(self).center == old(self).center,
            final(self).up == old(self).up,
            final(self).meshes@ == old(self).meshes@,
            final(self).emitters@ == old(self).emitters@,
    {
        self.translation = Vec3 {
            x: self.translation.x + translation.x,
            y: self.translation.y + translation.y,
            z: self.translation.z + translation.z,
        };
    }

    /// Add quarter-turn rotation deltas about the X, Y and Z axes.
    pub fn rotate(&mut self, x: i64, y: i64, z: i64)
        requires
            old(self).wf(),
            -CAM_MAX <= old(self).rotation.x + x <= CAM_MAX,
            -CAM_MAX <= old(self).rotation.y + y <= CAM_MAX,
            -CAM_MAX <= old(self).rotation.z + z <= CAM_MAX,
        ensures
            final(self).wf(),
            final(self).rotation@ == old(self).rotation@.add(Vec3V { x: x as int, y: y as int, z: z as int }),
            final(self).translation == old(self).translation,
            final(self).eye == old(self).eye,
            final(self).center == old(self).center,
            final(self).up == old(self).up,
            final(self).meshes@ == old(self).meshes@,
            final(self).emitters@ == old(self).emitters@,
    {
        self.rotation = Vec3 {
            x: self.rotation.x + x,
            y: self.rotation.y + y,
            z: self.rotation.z + z,
        };
    }

    /// The model matrix from the current translation and rotation state,
    /// recomputed from scratch: translate, then rotate X, then Y, then Z.
    pub fn calc_model(&self) -> (m: Mat4)
        requires
            self.wf(),
        ensures
            m@ == model_of(self.translation@, self.rotation@),
            m@.bounded(729 * CAM_MAX as int),
    {
        let m0 = Mat4::ident().translate(self.translation);
        proof {
            assert(m0@.bounded(CAM_MAX as int));
            lemma_quarter_unit(self.rotation.x as int);
            lemma_quarter_unit(self.rotation.y as int);
            lemma_quarter_unit(self.rotation.z as int);
        }
        let sx = crate::arith::quarter_sin(self.rotation.x);
        let cx = crate::arith::quarter_cos(self.rotation.x);
        let m1 = m0.rotate(sx, cx, Vec3 { x: 1, y: 0, z: 0 });
        proof {
            lemma_rotated_bounded(m0@, sx as int, cx as int, Vec3V { x: 1, y: 0, z: 0 }, CAM_MAX as int);
            assert(m1@.bounded(9 * CAM_MAX as int));
        }
        let sy = crate::arith::quarter_sin(self.rotation.y);
        let cy = crate::arith::quarter_cos(self.rotation.y);
        let m2 = m1.rotate(sy, cy, Vec3 { x: 0, y: 1, z: 0 });
        proof {
            lemma_rotated_bounded(m1@, sy as int, cy as int, Vec3V { x: 0, y: 1, z: 0 }, 9 * CAM_MAX as int);
            assert(m2@.bounded(81 * CAM_MAX as int));
        }
        let sz = crate::arith::quarter_sin(self.rotation.z);
        let cz = crate::arith::quarter_cos(self.rotation.z);
        let m3 = m2.rotate(sz, cz, Vec3 { x: 0, y: 0, z: 1 });
        proof {
            lemma_rotated_bounded(m2@, sz as int, cz as int, Vec3V { x: 0, y: 0, z: 1 }, 81 * CAM_MAX as int);
            assert(m3@.bounded(729 * CAM_MAX as int));
        }
        m3
    }

    /// Point the camera: eye position, look target, and up hint.
    pub fn look_at(&mut self, eye: Vec3, center: Vec3, up: Vec3)
        requires
            old(self).wf(),
            eye@.bounded(CAM_MAX as int),
            center@.bounded(CAM_MAX as int),
            up@.bounded(CAM_MAX as int),
        ensures
            final(self).wf(),
            final(self).eye == eye,
            final(self).center == center,
            final(self).up == up,
            final(self).translation == old(self).translation,
            final(self).rotation == old(self).rotation,
            final(self).meshes@ == old(self).meshes@,
            final(self).emitters@ == old(self).emitters@,
    {
        self.eye = eye;
        self.center = center;
        self.up = up;
    }

    /// The look-at view matrix from the current eye, center and up. The
    /// view direction must be nonzero, the up hint nonzero, and the two
    /// not parallel; `normalize` is undefined on a zero vector.
    pub fn calc_view(&self) -> (v: Mat4)
        requires
            self.wf(),
            self.center@.sub(self.eye@).norm_sq() != 0,
            self.up@.norm_sq() != 0,
            self.center@.sub(self.eye@).normalized().cross(
                self.up@.normalized(),
            ).norm_sq() != 0,
        ensures
            v@ == view_of(self.eye@, self.center@, self.up@),
    {
        let f = self.center.sub(&self.eye).normalize();
        let un = self.up.normalize();
        let cr = f.cross(&un);
        proof {
            lemma_mul_bound(f.y as int, un.z as int, 1, 1);
            lemma_mul_bound(f.z as int, un.y as int, 1, 1);
            lemma_mul_bound(f.z as int, un.x as int, 1, 1);
            lemma_mul_bound(f.x as int, un.z as int, 1, 1);
            lemma_mul_bound(f.x as int, un.y as int, 1, 1);
            lemma_mul_bound(f.y as int, un.x as int, 1, 1);
            assert(cr@.bounded(2));
        }
        let s = cr.normalize();
        let u = s.cross(&f);
        proof {
            lemma_mul_bound(s.y as int, f.z as int, 1, 1);
            lemma_mul_bound(s.z as int, f.y as int, 1, 1);
            lemma_mul_bound(s.z as int, f.x as int, 1, 1);
            lemma_mul_bound(s.x as int, f.z as int, 1, 1);
            lemma_mul_bound(s.x as int, f.y as int, 1, 1);
            lemma_mul_bound(s.y as int, f.x as int, 1, 1);
            assert(u@.bounded(2));
        }
        let sd = s.dot(&self.eye);
        let ud = u.dot(&self.eye);
        let fd = f.dot(&self.eye);
        proof {
            lemma_mul_bound(s.x as int, self.eye.x as int, 1, CAM_MAX as int);
            lemma_mul_bound(s.y as int, self.eye.y as int, 1, CAM_MAX as int);
            lemma_mul_bound(s.z as int, self.eye.z as int, 1, CAM_MAX as int);
            lemma_mul_bound(u.x as int, self.eye.x as int, 2, CAM_MAX as int);
            lemma_mul_bound(u.y as int, self.eye.y as int, 2, CAM_MAX as int);
            lemma_mul_bound(u.z as int, self.eye.z as int, 2, CAM_MAX as int);
        }
        Mat4 {
            c0: Vec4 { x: s.x, y: u.x, z: -f.x, w: 0 },
            c1: Vec4 { x: s.y, y: u.y, z: -f.y, w: 0 },
            c2: Vec4 { x: s.z, y: u.z, z: -f.z, w: 0 },
            c3: Vec4 { x: -sd, y: -ud, z: fd, w: 1 },
        }
    }

    /// Append an object to the scene; objects keep insertion order.
    pub fn add_mesh(&mut self, mesh: Mesh) -> (index: usize)
        requires
            old(self).wf(),
        ensures
            final(self).wf(),
            final(self).meshes@ == old(self).meshes@.push(mesh),
            index as int == old(self).meshes@.len(),
            final(self).translation == old(self).translation,
            final(self).rotation == old(self).rotation,
            final(self).eye == old(self).eye,
            final(self).center == old(self).center,
            final(self).up == old(self).up,
            final(self).emitters@ == old(self).emitters@,
    {
        let index = self.meshes.len();
        self.meshes.push(mesh);
        index
    }

    /// Bind the next emitter id to the object at `mesh_index`; ids are
    /// handed out in order, starting from zero. The table is built once
    /// at startup and never changes afterwards.
    pub fn bind_emitter(&mut self, mesh_index: usize) -> (id: usize)
        requires
            old(self).wf(),
            mesh_index < old(self).meshes@.len(),
        ensures
            final(self).wf(),
            final(self).emitters@ == old(self).emitters@.push(mesh_index),
            id as int == old(self).emitters@.len(),
            final(self).meshes@ == old(self).meshes@,
            final(self).translation == old(self).translation,
            final(self).rotation == old(self).rotation,
            final(self).eye == old(self).eye,
            final(self).center == old(self).center,
            final(self).up == old(self).up,
    {
        let id = self.emitters.len();
        self.emitters.push(mesh_index);
        id
    }


    /// One frame's scene work, minus the backend calls: lazily mark every
    /// object uploaded, drain each object's mailbox (consuming at most
    /// one update per object per frame), and compose the model and view
    /// matrices from the current camera state.
    pub fn draw(&mut self) -> (mv: (Mat4, Mat4))
        requires
            old(self).wf(),
            old(self).center@.sub(old(self).eye@).norm_sq() != 0,
            old(self).up@.norm_sq() != 0,
            old(self).center@.sub(old(self).eye@).normalized().cross(
                old(self).up@.normalized(),
            ).norm_sq() != 0,
        ensures
            final(self).wf(),
            final(self).translation == old(self).translation,
            final(self).rotation == old(self).rotation,
            final(self).eye == old(self).eye,
            final(self).center == old(self).center,
            final(self).up == old(self).up,
            final(self).emitters@ == old(self).emitters@,
            final(self).meshes@.len() == old(self).meshes@.len(),
            forall|j: int|
                0 <= j < old(self).meshes@.len() ==> {
                    let pre = old(self).meshes@[j];
                    let post = #[trigger] final(self).meshes@[j];
                    &&& post.uploaded == true
                    &&& post.pending is None
                    &&& post.vertices@ == pre.vertices@
                    &&& post.normals@ == pre.normals@
                    &&& post.elements@ == pre.elements@
                    &&& post.object2world == pre.object2world
                    &&& match pre.pending {
                        Some(c) => post.colors@ == Seq::new(pre.colors@.len(), |k: int| c),
                        None => post.colors@ == pre.colors@,
                    }
                },
            mv.0@ == model_of(old(self).translation@, old(self).rotation@),
            mv.1@ == view_of(old(self).eye@, old(self).center@, old(self).up@),
    {
        let n = self.meshes.len();
        let mut i: usize = 0;
        while i < n
            invariant
                i <= n,
                n as int == self.meshes@.len(),
                self.meshes@.len() == old(self).meshes@.len(),
                self.wf(),
                self.translation == old(self).translation,
                self.rotation == old(self).rotation,
                self.eye == old(self).eye,
                self.center == old(self).center,
                self.up == old(self).up,
                self.emitters@ == old(self).emitters@,
                forall|j: int| i as int <= j < n as int ==> self.meshes@[j] == old(self).meshes@[j],
                forall|j: int|
                    0 <= j < i as int ==> {
                        let pre = old(self).meshes@[j];
                        let post = #[trigger] self.meshes@[j];
                        &&& post.uploaded == true
                        &&& post.pending is None
                        &&& post.vertices@ == pre.vertices@
                        &&& post.normals@ == pre.normals@
                        &&& post.elements@ == pre.elements@
                        &&& post.object2world == pre.object2world
                        &&& match pre.pending {
                            Some(c) => post.colors@ == Seq::new(pre.colors@.len(), |k: int| c),
                            None => post.colors@ == pre.colors@,
                        }
                    },
            decreases n - i,
        {
            let m = &mut self.meshes[i];
            if !m.uploaded() {
                m.upload();
            }
            let _changed: bool = m.poll_update();
            i = i + 1;
        }
        let model = self.calc_model();
        let view = self.calc_view();
        (model, view)
    }

    /// Route one wire record: a record addressed to a bound emitter
    /// leaves its color in that object's mailbox, overwriting any earlier
    /// value; a record whose id is out of range changes nothing anywhere.
    pub fn deliver(&mut self, rec: Record)
        requires
            old(self).wf(),
        ensures
            final(self).wf(),
            final(self).translation == old(self).translation,
            final(self).rotation == old(self).rotation,
            final(self).eye == old(self).eye,
            final(self).center == old(self).center,
            final(self).up == old(self).up,
            final(self).emitters@ == old(self).emitters@,
            final(self).meshes@ == deliver_one(old(self).meshes@, old(self).emitters@, rec),
    {
        let id: usize = rec.emitter as usize;
        if id < self.emitters.len() {
            let mi: usize = self.emitters[id];
            proof {
                assert((self.emitters@[id as int] as int) < self.meshes@.len());
            }
            let m = &mut self.meshes[mi];
            m.post_color(rec.color);
        }
    }

    /// Route every record of a decoded frame, in order: the scene's
    /// objects end exactly as `deliver` applied record by record leaves
    /// them, and records addressed past the emitter table change nothing.
    pub fn deliver_frame(&mut self, records: &Vec<Record>)
        requires
            old(self).wf(),
        ensures
            final(self).wf(),
            final(self).translation == old(self).translation,
            final(self).rotation == old(self).rotation,
            final(self).eye == old(self).eye,
            final(self).center == old(self).center,
            final(self).up == old(self).up,
            final(self).emitters@ == old(self).emitters@,
            final(self).meshes@ == deliver_all(old(self).meshes@, old(self).emitters@, records@),
    {
        let mut k: usize = 0;
        while k < records.len()
            invariant
                k <= records@.len(),
                self.wf(),
                self.translation == old(self).translation,
                self.rotation == old(self).rotation,
                self.eye == old(self).eye,
                self.center == old(self).center,
                self.up == old(self).up,
                self.emitters@ == old(self).emitters@,
                self.meshes@ == deliver_all(
                    old(self).meshes@,
                    old(self).emitters@,
                    records@.take(k as int),
                ),
            decreases records@.len() - k,
        {
            self.deliver(records[k]);
            proof {
                let s = records@;
                assert(s.take(k as int + 1).drop_last() =~= s.take(k as int));
                assert(s.take(k as int + 1).last() == s[k as int]);
            }
            k = k + 1;
        }
        proof {
            assert(records@.take(records@.len() as int) =~= records@);
        }
    }
}

} // verus!
