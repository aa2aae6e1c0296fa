use light_sculpture::camera::Camera;
use light_sculpture::config::{emitter_position, EmitterSpec};
use light_sculpture::mesh::Mesh;
use light_sculpture::protocol::{decode_frame, decode_records, Color, Record};
use light_sculpture::vector::{Vec3, Vec4};

fn triangle_mesh() -> Mesh {
    let vertices = vec![
        Vec4::new(0, 0, 0, 1),
        Vec4::new(100, 0, 0, 1),
        Vec4::new(0, 100, 0, 1),
    ];
    let elements: Vec<u16> = vec![0, 1, 2];
    Mesh::from_geometry(vertices, elements)
}

#[test]
fn decode_two_record_frame() {
    let data: Vec<u8> = vec![2, 0, 255, 0, 0, 1, 0, 0, 255];
    let (records, used) = decode_frame(&data).unwrap();
    assert_eq!(used, 9);
    assert_eq!(records.len(), 2);
    assert_eq!(
        records[0],
        Record { emitter: 0, color: Color { r: 255, g: 0, b: 0 } }
    );
    assert_eq!(
        records[1],
        Record { emitter: 1, color: Color { r: 0, g: 0, b: 255 } }
    );
    // Normalized at the graphics edge, these are (1.0, 0.0, 0.0) and
    // (0.0, 0.0, 1.0).
    assert_eq!(records[0].color.r as f32 / 255.0, 1.0);
    assert_eq!(records[1].color.b as f32 / 255.0, 1.0);
}

#[test]
fn decode_incomplete_frame() {
    assert!(decode_frame(&[]).is_none());
    assert!(decode_frame(&[2, 0, 255, 0, 0]).is_none());
    let (records, used) = decode_frame(&[0, 9, 9]).unwrap();
    assert_eq!(used, 1);
    assert_eq!(records.len(), 0);
}

#[test]
fn decode_records_back_to_back() {
    let payload: Vec<u8> = vec![3, 1, 2, 3, 7, 10, 20, 30];
    let records = decode_records(2, &payload);
    assert_eq!(records.len(), 2);
    assert_eq!(records[0], Record { emitter: 3, color: Color { r: 1, g: 2, b: 3 } });
    assert_eq!(records[1], Record { emitter: 7, color: Color { r: 10, g: 20, b: 30 } });
}

#[test]
fn frame_routes_to_bound_emitters() {
    let mut camera = Camera::new();
    let base = camera.add_mesh(triangle_mesh());
    let rod0 = camera.add_mesh(triangle_mesh());
    let rod1 = camera.add_mesh(triangle_mesh());
    camera.bind_emitter(rod0);
    camera.bind_emitter(rod1);

    let data: Vec<u8> = vec![2, 0, 255, 0, 0, 1, 0, 0, 255];
    let (records, _) = decode_frame(&data).unwrap();
    camera.deliver_frame(&records);

    assert_eq!(camera.meshes[base].pending, None);
    assert_eq!(camera.meshes[rod0].pending, Some(Color { r: 255, g: 0, b: 0 }));
    assert_eq!(camera.meshes[rod1].pending, Some(Color { r: 0, g: 0, b: 255 }));
}

#[test]
fn out_of_range_emitter_changes_nothing() {
    let mut camera = Camera::new();
    let rod0 = camera.add_mesh(triangle_mesh());
    camera.bind_emitter(rod0);
    camera.deliver(Record { emitter: 5, color: Color { r: 9, g: 9, b: 9 } });
    assert_eq!(camera.meshes[rod0].pending, None);
    for c in camera.meshes[rod0].colors.iter() {
        assert_eq!(*c, Color { r: 0, g: 0, b: 0 });
    }
}

#[test]
fn latest_update_wins() {
    let mut m = triangle_mesh();
    m.post_color(Color { r: 1, g: 1, b: 1 });
    m.post_color(Color { r: 2, g: 2, b: 2 });
    assert_eq!(m.pending, Some(Color { r: 2, g: 2, b: 2 }));
    let changed = m.poll_update();
    assert!(changed);
    for c in m.colors.iter() {
        assert_eq!(*c, Color { r: 2, g: 2, b: 2 });
    }
}

#[test]
fn poll_without_pending_changes_nothing() {
    let mut m = triangle_mesh();
    m.post_color(Color { r: 50, g: 60, b: 70 });
    assert!(m.poll_update());
    let colors_before = m.colors.clone();
    let changed = m.poll_update();
    assert!(!changed);
    assert_eq!(m.pending, None);
    assert_eq!(m.colors, colors_before);
}

#[test]
fn single_triangle_normals() {
    // Face normal of ((0,0,0), (100,0,0), (0,100,0)) is +Z, assigned to
    // all three vertices.
    let m = triangle_mesh();
    assert_eq!(m.normals.len(), 3);
    for n in m.normals.iter() {
        assert_eq!(*n, Vec3::new(0, 0, 1));
    }
}

#[test]
fn shared_vertex_keeps_last_triangle_normal() {
    let vertices = vec![
        Vec4::new(0, 0, 0, 1),
        Vec4::new(100, 0, 0, 1),
        Vec4::new(0, 100, 0, 1),
        Vec4::new(0, 0, 100, 1),
    ];
    // First triangle faces +Z; the second, sharing vertices 0 and 1,
    // faces +Y. The shared vertices keep the later normal.
    let elements: Vec<u16> = vec![0, 1, 2, 1, 0, 3];
    let m = Mesh::from_geometry(vertices, elements);
    assert_eq!(m.normals[2], Vec3::new(0, 0, 1));
    assert_eq!(m.normals[0], Vec3::new(0, 1, 0));
    assert_eq!(m.normals[1], Vec3::new(0, 1, 0));
    assert_eq!(m.normals[3], Vec3::new(0, 1, 0));
}

#[test]
fn polar_emitter_position() {
    // angle 0, radius 10, height 5 stands at (1.0, 0.0, 0.5) scene units,
    // which is (100, 0, 50) in centi-units.
    let p = emitter_position(&EmitterSpec::Polar { angle: 0, radius: 10, height: 5 });
    assert_eq!(p, Vec3::new(100, 0, 50));
    assert_eq!(p.x as f64 / 100.0, 1.0);
    assert_eq!(p.y as f64 / 100.0, 0.0);
    assert_eq!(p.z as f64 / 100.0, 0.5);
}

#[test]
fn cartesian_emitter_position() {
    let p = emitter_position(&EmitterSpec::Cartesian { x: 3, y: -4, height: 7 });
    assert_eq!(p, Vec3::new(30, -40, 70));
}

#[test]
fn quarter_turn_polar_positions() {
    let q1 = emitter_position(&EmitterSpec::Polar { angle: 1, radius: 10, height: 0 });
    assert_eq!(q1, Vec3::new(0, 100, 0));
    let q2 = emitter_position(&EmitterSpec::Polar { angle: 2, radius: 10, height: 0 });
    assert_eq!(q2, Vec3::new(-100, 0, 0));
    let q3 = emitter_position(&EmitterSpec::Polar { angle: -1, radius: 10, height: 0 });
    assert_eq!(q3, Vec3::new(0, -100, 0));
}

#[test]
fn later_record_wins_within_frame() {
    // Two records for the same emitter in one frame: the later one is
    // the mailbox value after routing.
    let mut camera = Camera::new();
    let rod = camera.add_mesh(triangle_mesh());
    camera.bind_emitter(rod);
    let records = vec![
        Record { emitter: 0, color: Color { r: 1, g: 2, b: 3 } },
        Record { emitter: 0, color: Color { r: 7, g: 8, b: 9 } },
    ];
    camera.deliver_frame(&records);
    assert_eq!(camera.meshes[rod].pending, Some(Color { r: 7, g: 8, b: 9 }));
}
