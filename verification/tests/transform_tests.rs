use wuengine::fx::{Fx, FX_ONE};
use wuengine::mat::Mat4;
use wuengine::transform::Transform;

#[test]
fn translate_roundtrip_returns_to_identity() {
    let mut t = Transform::new();
    t.translate_self(Fx::from_int(5), Fx::from_int(-3), Fx::from_int(2));
    t.translate_self(Fx::from_int(-5), Fx::from_int(3), Fx::from_int(-2));
    assert_eq!(t.base, Mat4::identity());
}

#[test]
fn translate_roundtrip_with_fractions() {
    let mut t = Transform::new();
    let x = Fx::from_raw(12345);
    t.translate_self(x, x, x);
    t.translate_self(x.neg(), x.neg(), x.neg());
    assert_eq!(t.base, Mat4::identity());
}

#[test]
fn full_turn_rotation_is_identity() {
    let mut t = Transform::new();
    t.translate_self(Fx::from_int(7), Fx::from_int(1), Fx::from_int(-4));
    let before = t.base;
    t.rotate_self(Fx::from_int(360), Fx::zero(), Fx::zero());
    assert_eq!(t.base, before);
}

#[test]
fn rotation_applies_x_then_y_then_z() {
    let mut combined = Transform::new();
    combined.rotate_self(Fx::from_int(30), Fx::from_int(40), Fx::from_int(50));
    let mut sequenced = Transform::new();
    Transform::rotate_x(&mut sequenced, Fx::from_int(30));
    Transform::rotate_y(&mut sequenced, Fx::from_int(40));
    Transform::rotate_z(&mut sequenced, Fx::from_int(50));
    assert_eq!(combined.base, sequenced.base);
}

#[test]
fn quarter_turn_about_x_has_exact_entries() {
    let mut t = Transform::new();
    Transform::rotate_x(&mut t, Fx::from_int(90));
    // cos 90 = 0 and sin 90 = 1 exactly: row 1 = (0, 0, -1, 0) and
    // row 2 = (0, 1, 0, 0).
    assert_eq!(t.base.r1.y.raw, 0);
    assert_eq!(t.base.r1.z.raw, -FX_ONE);
    assert_eq!(t.base.r2.y.raw, FX_ONE);
    assert_eq!(t.base.r2.z.raw, 0);
    assert_eq!(t.base.r0.x.raw, FX_ONE);
    assert_eq!(t.base.r3.w.raw, FX_ONE);
}

#[test]
fn new_translation_places_offsets_in_last_column() {
    let t = Transform::new_translation(Fx::from_int(1), Fx::from_int(2), Fx::from_int(3));
    assert_eq!(t.base.r0.w.raw, FX_ONE);
    assert_eq!(t.base.r1.w.raw, 2 * FX_ONE);
    assert_eq!(t.base.r2.w.raw, 3 * FX_ONE);
    assert_eq!(t.base.r0.x.raw, FX_ONE);
    assert!(t.mesh.is_none());
    assert!(t.children.is_empty());
}

#[test]
fn default_cube_has_eight_corner_vertices() {
    let mut t = Transform::new();
    t.setup_default_cube();
    let mesh = t.mesh.as_ref().expect("cube mesh");
    assert_eq!(mesh.verts.len(), 8);
    for v in &mesh.verts {
        assert!(v.x.raw == FX_ONE || v.x.raw == -FX_ONE);
        assert!(v.y.raw == FX_ONE || v.y.raw == -FX_ONE);
        assert!(v.z.raw == FX_ONE || v.z.raw == -FX_ONE);
        assert_eq!(v.w.raw, FX_ONE);
    }
    // The helper also translated the node by (2, 0, 0).
    assert_eq!(t.base, Mat4::translation(Fx::from_int(2), Fx::zero(), Fx::zero()));
}

#[test]
fn default_cube_translation_composes_with_prior_state() {
    let mut t = Transform::new_translation(Fx::from_int(1), Fx::zero(), Fx::zero());
    t.setup_default_cube();
    assert_eq!(t.base.r0.w.raw, 3 * FX_ONE);
}

#[test]
fn translations_accumulate_in_local_frame() {
    let mut t = Transform::new();
    Transform::rotate_z(&mut t, Fx::from_int(90));
    t.translate_self(Fx::from_int(1), Fx::zero(), Fx::zero());
    // After a quarter turn about Z, a local +x step moves the node along
    // world +y: cos 90 = 0, sin 90 = 1.
    assert_eq!(t.base.r0.w.raw, 0);
    assert_eq!(t.base.r1.w.raw, FX_ONE);
}
