use light_sculpture::camera::Camera;
use light_sculpture::matrix::{Mat3, Mat4};
use light_sculpture::mesh::Mesh;
use light_sculpture::protocol::{decode_frame, Color};
use light_sculpture::vector::{Vec3, Vec4};

fn rod_stub() -> Mesh {
    let vertices = vec![
        Vec4::new(0, 0, 0, 1),
        Vec4::new(100, 0, 0, 1),
        Vec4::new(0, 100, 0, 1),
    ];
    Mesh::from_geometry(vertices, vec![0, 1, 2])
}

#[test]
fn camera_deltas_accumulate() {
    let mut camera = Camera::new();
    camera.translate(Vec3::new(5, 0, 0));
    camera.translate(Vec3::new(5, -3, 0));
    assert_eq!(camera.translation, Vec3::new(10, -3, 0));
    camera.rotate(1, 0, 0);
    camera.rotate(0, 0, 2);
    assert_eq!(camera.rotation, Vec3::new(1, 0, 2));
}

#[test]
fn model_without_rotation_is_translation() {
    let mut camera = Camera::new();
    camera.translate(Vec3::new(7, 8, 9));
    let m = camera.calc_model();
    assert_eq!(m.c0, Vec4::new(1, 0, 0, 0));
    assert_eq!(m.c1, Vec4::new(0, 1, 0, 0));
    assert_eq!(m.c2, Vec4::new(0, 0, 1, 0));
    assert_eq!(m.c3, Vec4::new(7, 8, 9, 1));
}

#[test]
fn model_quarter_turn_about_x() {
    let mut camera = Camera::new();
    camera.rotate(1, 0, 0);
    let m = camera.calc_model();
    // A quarter turn about X maps Y to Z.
    assert_eq!(m.c0, Vec4::new(1, 0, 0, 0));
    assert_eq!(m.c1, Vec4::new(0, 0, 1, 0));
    assert_eq!(m.c2, Vec4::new(0, -1, 0, 0));
}

#[test]
fn view_matrix_axis_aligned() {
    let mut camera = Camera::new();
    camera.look_at(Vec3::new(0, 0, 500), Vec3::new(0, 0, 0), Vec3::new(0, 100, 0));
    let v = camera.calc_view();
    assert_eq!(v.c0, Vec4::new(1, 0, 0, 0));
    assert_eq!(v.c1, Vec4::new(0, 1, 0, 0));
    assert_eq!(v.c2, Vec4::new(0, 0, 1, 0));
    assert_eq!(v.c3, Vec4::new(0, 0, -500, 1));
}

#[test]
fn upload_then_draw_matrices() {
    let mut m = rod_stub();
    assert!(!m.uploaded());
    m.upload();
    assert!(m.uploaded());
    let model = Mat4::ident();
    let (final_model, normal_matrix) = m.draw_matrices(&model);
    assert_eq!(final_model, model);
    assert_eq!(normal_matrix, Mat3::from_four(Mat4::ident()));
}

#[test]
fn mesh_translate_composes() {
    let mut m = rod_stub();
    m.translate(Vec3::new(10, 0, 0));
    m.translate(Vec3::new(0, 20, 0));
    assert_eq!(m.object2world.c3, Vec4::new(10, 20, 0, 1));
}

#[test]
fn end_to_end_frame() {
    // One polar emitter fed over the wire: decode, route, poll, and the
    // object's colors hold the delivered value.
    let mut camera = Camera::new();
    let rod = camera.add_mesh(rod_stub());
    camera.bind_emitter(rod);
    let data: Vec<u8> = vec![1, 0, 255, 128, 0];
    let (records, _) = decode_frame(&data).unwrap();
    camera.deliver_frame(&records);
    assert_eq!(camera.meshes[rod].pending, Some(Color { r: 255, g: 128, b: 0 }));
    let changed = camera.meshes[rod].poll_update();
    assert!(changed);
    for c in camera.meshes[rod].colors.iter() {
        assert_eq!(*c, Color { r: 255, g: 128, b: 0 });
    }
    assert_eq!(camera.meshes[rod].pending, None);
}

#[test]
fn base_slab_geometry() {
    let base = Mesh::gen_base();
    assert_eq!(base.vertices.len(), 8);
    assert_eq!(base.elements.len(), 36);
    assert_eq!(base.vertices[0], Vec4::new(25, -26, -25, 1));
    assert_eq!(base.vertices[6], Vec4::new(-25, 0, 25, 1));
    assert_eq!(base.colors.len(), 8);
    assert_eq!(base.colors[0], Color { r: 0, g: 0, b: 0 });
    assert!(!base.uploaded);
    // Vertex 7 is last written by triangle (7, 4, 3): edges (50, 0, 0)
    // and (0, -26, 0) give a -Z facing normal.
    assert_eq!(base.normals[7], Vec3::new(0, 0, -1));
}

#[test]
fn rod_transform_from_template() {
    let base = Mesh::gen_base();
    let rod = Mesh::better_rod(100, 200, 50, base);
    // (25, -26, -25) maps to (25*2 + 100, -26*50, -25*2 + 200).
    assert_eq!(rod.vertices[0], Vec4::new(150, -1300, 150, 1));
    assert_eq!(rod.colors[0], Color { r: 255, g: 0, b: 0 });
    assert_eq!(rod.elements.len(), 36);
    assert_eq!(rod.pending, None);
}

#[test]
fn draw_polls_and_uploads_every_object() {
    let mut camera = Camera::new();
    let rod = camera.add_mesh(rod_stub());
    camera.bind_emitter(rod);
    camera.look_at(Vec3::new(0, 0, 500), Vec3::new(0, 0, 0), Vec3::new(0, 100, 0));
    camera.translate(Vec3::new(7, 0, 0));
    camera.meshes[rod].post_color(Color { r: 9, g: 8, b: 7 });
    let (model, view) = camera.draw();
    assert_eq!(model.c3, Vec4::new(7, 0, 0, 1));
    assert_eq!(view.c3, Vec4::new(0, 0, -500, 1));
    assert!(camera.meshes[rod].uploaded);
    assert_eq!(camera.meshes[rod].pending, None);
    for c in camera.meshes[rod].colors.iter() {
        assert_eq!(*c, Color { r: 9, g: 8, b: 7 });
    }
    // A second frame with nothing pending leaves the colors unchanged.
    let _ = camera.draw();
    for c in camera.meshes[rod].colors.iter() {
        assert_eq!(*c, Color { r: 9, g: 8, b: 7 });
    }
}
