use wuengine::fx::{Fx, FX_ONE};
use wuengine::mat::Vec4;
use wuengine::mesh_data::MeshData;
use wuengine::scene::{ortho_matrix, perspective_matrix, Scene};
use wuengine::transform::Transform;

fn vec4(x: i64, y: i64, z: i64) -> Vec4 {
    Vec4::new(Fx::from_int(x), Fx::from_int(y), Fx::from_int(z), Fx::one())
}

#[test]
fn perspective_matrix_has_the_documented_shape() {
    let m = perspective_matrix(Fx::from_int(60), Fx::from_int(800), Fx::from_int(600));
    // Row 2 carries the clip w through its last entry.
    assert_eq!(m.r2.w.raw, FX_ONE);
    // (far + near) / (far - near) = 3.5 / 2.5.
    assert_eq!(m.r2.z.raw, 91750);
    // 2 * near * far / (near - far) = 3.0 / -2.5.
    assert_eq!(m.r3.z.raw, -78643);
    assert_eq!(m.r3.w.raw, 0);
    assert_eq!(m.r0.y.raw, 0);
    assert_eq!(m.r1.x.raw, 0);
    // fov = 1 / tan(30 deg) is near sqrt 3.
    assert!((m.r1.y.raw - 113512).abs() < 300, "fov was {}", m.r1.y.raw);
}

#[test]
fn ortho_matrix_has_the_documented_shape() {
    let m = ortho_matrix(Fx::from_int(800), Fx::from_int(600));
    assert_eq!(m.r0.x.raw, FX_ONE / 800);
    assert_eq!(m.r1.y.raw, FX_ONE / 600);
    assert_eq!(m.r2.z.raw, 2 * FX_ONE);
    assert_eq!(m.r2.w.raw, FX_ONE);
    assert_eq!(m.r3.w.raw, FX_ONE);
}

#[test]
fn axis_vertex_projects_to_exact_viewport_center() {
    let scene = Scene::new();
    let r = scene
        .camera_to_screen(Fx::from_int(800), Fx::from_int(600), vec4(0, 0, 1))
        .expect("on-axis point must project");
    assert_eq!(r.0.raw, 400 * FX_ONE);
    assert_eq!(r.1.raw, 300 * FX_ONE);
}

#[test]
fn zero_clip_w_is_dropped_not_divided() {
    let scene = Scene::new();
    // Depth zero projects to clip w of exactly zero.
    let r = scene.camera_to_screen(Fx::from_int(800), Fx::from_int(600), vec4(3, 2, 0));
    assert!(r.is_none());
}

#[test]
fn negative_clip_w_still_projects() {
    let scene = Scene::new();
    // A positive depth gives a negative clip w here; the mapping still
    // returns finite coordinates rather than dividing by zero.
    let r = scene.camera_to_screen(Fx::from_int(800), Fx::from_int(600), vec4(1, 1, 1));
    assert!(r.is_some());
}

#[test]
fn draw_with_zero_w_vertex_does_not_crash() {
    let mut scene = Scene::new();
    let mut t = Transform::new();
    t.mesh = Some(MeshData { verts: vec![vec4(0, 0, 0)] });
    scene.add_object(t);
    let mut frame = vec![0u8; 800 * 600 * 4];
    scene.draw(&mut frame, 800, 600);
    assert!(frame.iter().all(|&b| b == 0));
}

#[test]
fn draw_clears_stale_buffer_contents() {
    let scene = Scene::new();
    let mut frame = vec![0xAAu8; 800 * 600 * 4];
    scene.draw(&mut frame, 800, 600);
    assert!(frame.iter().all(|&b| b == 0));
}

#[test]
fn draw_twice_is_bit_identical() {
    let mut scene = Scene::new();
    scene.set_default_camera_position();
    scene.add_test_objects();
    let mut first = vec![0u8; 800 * 600 * 4];
    let mut second = vec![0xFFu8; 800 * 600 * 4];
    scene.draw(&mut first, 800, 600);
    scene.draw(&mut second, 800, 600);
    assert_eq!(first, second);
}

#[test]
fn plotted_pixels_are_magenta_only() {
    let mut scene = Scene::new();
    let mut t = Transform::new();
    t.mesh = Some(MeshData { verts: vec![vec4(0, 0, 1), vec4(1, 0, 1), vec4(0, 1, 1)] });
    scene.add_object(t);
    let mut frame = vec![0u8; 800 * 600 * 4];
    scene.draw(&mut frame, 800, 600);
    let mut lit = 0;
    for px in frame.chunks(4) {
        if px != [0, 0, 0, 0] {
            assert_eq!(px, [0xFF, 0x00, 0xFF, 0xFF]);
            lit += 1;
        }
    }
    assert!(lit >= 1 && lit <= 3, "lit {} pixels", lit);
}

#[test]
fn add_test_objects_appends_a_cube() {
    let mut scene = Scene::new();
    scene.add_test_objects();
    assert_eq!(scene.objects.len(), 1);
    let mesh = scene.objects[0].mesh.as_ref().expect("cube mesh");
    assert_eq!(mesh.verts.len(), 8);
}

#[test]
fn default_camera_position_is_exact() {
    let mut scene = Scene::new();
    scene.set_default_camera_position();
    // Translate (0, -2, 0) then rotate a quarter turn about X, with exact
    // cardinal sine and cosine: row 1 becomes (0, 0, -1, -2).
    assert_eq!(scene.camera.base.r1.z.raw, -FX_ONE);
    assert_eq!(scene.camera.base.r1.w.raw, -2 * FX_ONE);
    assert_eq!(scene.camera.base.r2.y.raw, FX_ONE);
    assert_eq!(scene.camera.base.r0.x.raw, FX_ONE);
}

#[test]
fn objects_render_in_list_order() {
    let mut scene = Scene::new();
    let mut a = Transform::new();
    a.mesh = Some(MeshData { verts: vec![vec4(0, 0, 1)] });
    let mut b = Transform::new();
    b.mesh = Some(MeshData { verts: vec![vec4(0, 0, 1)] });
    scene.add_object(a);
    scene.add_object(b);
    assert_eq!(scene.objects.len(), 2);
    // Both write the same pixel; the last writer wins with the same color.
    let mut frame = vec![0u8; 800 * 600 * 4];
    scene.draw(&mut frame, 800, 600);
    let center = (300 * 800 + 400) * 4;
    assert_eq!(&frame[center..center + 4], [0xFF, 0x00, 0xFF, 0xFF]);
}
