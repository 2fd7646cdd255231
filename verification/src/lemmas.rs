//! Proved laws of the transform pipeline: translation round trips cancel,
//! a whole turn of rotation is the identity, and a vertex on the camera
//! axis projects to the exact viewport center.

use vstd::prelude::*;
use vstd::arithmetic::div_mod::{lemma_fundamental_div_mod, lemma_div_multiples_vanish};
use crate::fx::{fx_mul, fx_of_int, FX_ONE};
use crate::mat::{Mat4V, Vec4V, mat_mul, mat_vec_mul, mat_identity, mat_translation, dot4};
use crate::transform::{mat_rot_x, mat_rot_y, mat_rot_z};
use crate::scene::{camera_screen, FOV_DEG, NEAR, FAR};

verus! {

/// Whether every component of a vector is in the raw `i64` range, as the
/// view of any executable vector is.
pub open spec fn vec4_wf(v: Vec4V) -> bool {
    &&& i64::MIN <= v.x <= i64::MAX
    &&& i64::MIN <= v.y <= i64::MAX
    &&& i64::MIN <= v.z <= i64::MAX
    &&& i64::MIN <= v.w <= i64::MAX
}

/// Whether every entry of a matrix is in the raw `i64` range, as the
/// view of any executable matrix is.
pub open spec fn mat_wf(m: Mat4V) -> bool {
    vec4_wf(m.r0) && vec4_wf(m.r1) && vec4_wf(m.r2) && vec4_wf(m.r3)
}

/// Multiplying by the scalar one is exact.
pub proof fn lemma_fx_mul_one(v: int)
    requires
        i64::MIN <= v <= i64::MAX,
    ensures
        fx_mul(FX_ONE as int, v) == v,
        fx_mul(v, FX_ONE as int) == v,
{
    lemma_div_multiples_vanish(v, FX_ONE as int);
    assert((FX_ONE as int) * v == v * (FX_ONE as int));
}

/// Multiplying by the scalar zero is zero.
pub proof fn lemma_fx_mul_zero(v: int)
    ensures
        fx_mul(0, v) == 0,
        fx_mul(v, 0) == 0,
{
    assert(0int * v == 0);
    assert(v * 0int == 0);
}

/// The dot product of a bounded vector with a basis column picks the
/// matching component, exactly, in either argument order.
proof fn lemma_dot4_basis(v: Vec4V)
    requires
        vec4_wf(v),
    ensures
        dot4(v, Vec4V { x: FX_ONE as int, y: 0, z: 0, w: 0 }) == v.x,
        dot4(v, Vec4V { x: 0, y: FX_ONE as int, z: 0, w: 0 }) == v.y,
        dot4(v, Vec4V { x: 0, y: 0, z: FX_ONE as int, w: 0 }) == v.z,
        dot4(v, Vec4V { x: 0, y: 0, z: 0, w: FX_ONE as int }) == v.w,
        dot4(Vec4V { x: FX_ONE as int, y: 0, z: 0, w: 0 }, v) == v.x,
        dot4(Vec4V { x: 0, y: FX_ONE as int, z: 0, w: 0 }, v) == v.y,
        dot4(Vec4V { x: 0, y: 0, z: FX_ONE as int, w: 0 }, v) == v.z,
        dot4(Vec4V { x: 0, y: 0, z: 0, w: FX_ONE as int }, v) == v.w,
{
    lemma_fx_mul_one(v.x);
    lemma_fx_mul_one(v.y);
    lemma_fx_mul_one(v.z);
    lemma_fx_mul_one(v.w);
    lemma_fx_mul_zero(v.x);
    lemma_fx_mul_zero(v.y);
    lemma_fx_mul_zero(v.z);
    lemma_fx_mul_zero(v.w);
}

/// The identity matrix is a right unit of the matrix product on matrices
/// with in-range entries.
pub proof fn lemma_mat_mul_identity_right(m: Mat4V)
    requires
        mat_wf(m),
    ensures
        mat_mul(m, mat_identity()) == m,
{
    lemma_dot4_basis(m.r0);
    lemma_dot4_basis(m.r1);
    lemma_dot4_basis(m.r2);
    lemma_dot4_basis(m.r3);
}

/// The identity matrix is a left unit of the matrix product on matrices
/// with in-range entries.
pub proof fn lemma_mat_mul_identity_left(m: Mat4V)
    requires
        mat_wf(m),
    ensures
        mat_mul(mat_identity(), m) == m,
{
    lemma_dot4_basis(crate::mat::col0(m));
    lemma_dot4_basis(crate::mat::col1(m));
    lemma_dot4_basis(crate::mat::col2(m));
    lemma_dot4_basis(crate::mat::col3(m));
}

/// Applying the identity matrix leaves a bounded vector unchanged.
pub proof fn lemma_mat_vec_identity(v: Vec4V)
    requires
        vec4_wf(v),
    ensures
        mat_vec_mul(mat_identity(), v) == v,
{
    lemma_dot4_basis(v);
}

/// Translating by (x, y, z) and then by the negated offsets returns an
/// identity transform's matrix to the identity, exactly.
pub proof fn lemma_translate_roundtrip(x: int, y: int, z: int)
    requires
        -i64::MAX <= x <= i64::MAX,
        -i64::MAX <= y <= i64::MAX,
        -i64::MAX <= z <= i64::MAX,
    ensures
        mat_mul(mat_mul(mat_identity(), mat_translation(x, y, z)), mat_translation(-x, -y, -z))
            == mat_identity(),
{
    lemma_mat_mul_identity_left(mat_translation(x, y, z));
    let t = mat_translation(x, y, z);
    let n = mat_translation(-x, -y, -z);
    lemma_dot4_basis(t.r0);
    lemma_dot4_basis(t.r1);
    lemma_dot4_basis(t.r2);
    lemma_dot4_basis(t.r3);
    lemma_fx_mul_one(-x);
    lemma_fx_mul_one(-y);
    lemma_fx_mul_one(-z);
    lemma_fx_mul_one(x);
    lemma_fx_mul_one(y);
    lemma_fx_mul_one(z);
    lemma_fx_mul_zero(x);
    lemma_fx_mul_zero(y);
    lemma_fx_mul_zero(z);
    lemma_fx_mul_zero(-x);
    lemma_fx_mul_zero(-y);
    lemma_fx_mul_zero(-z);
    lemma_fx_mul_zero(FX_ONE as int);
    assert(mat_mul(t, n) =~= mat_identity());
}

/// The sine Taylor polynomial vanishes at zero.
proof fn lemma_sin_taylor_zero()
    ensures
        crate::trig::sin_taylor(0) == 0,
{
    lemma_fx_mul_zero(0);
    lemma_fx_mul_zero(crate::trig::INV_SIX as int);
    lemma_fx_mul_zero(crate::trig::INV_120 as int);
    lemma_fx_mul_zero(crate::trig::INV_5040 as int);
}

/// The sine and cosine of a whole turn, and of no turn, are exact.
proof fn lemma_trig_cardinal()
    ensures
        crate::trig::sin_deg(360 * FX_ONE as int) == 0,
        crate::trig::cos_deg(360 * FX_ONE as int) == FX_ONE as int,
        crate::trig::sin_deg(0) == 0,
        crate::trig::cos_deg(0) == FX_ONE as int,
{
    lemma_sin_taylor_zero();
    lemma_fx_mul_zero(crate::trig::RAD_PER_DEG as int);
    vstd::arithmetic::div_mod::lemma_mod_self_0(23592960);
    assert(crate::trig::reduce_deg(360 * FX_ONE as int) == 0);
    assert(crate::trig::reduce_deg(0) == 0);
    assert(crate::trig::reduce_deg(90 * FX_ONE as int) == 90 * FX_ONE as int);
    assert(crate::trig::sin_deg(90 * FX_ONE as int) == FX_ONE as int);
}

/// A full turn about X, and zero turns about Y and Z, leave any in-range
/// matrix exactly as it was: the fixed X-then-Y-then-Z rotation order
/// applied to the angles (360, 0, 0) multiplies by the identity three
/// times, whatever translation the matrix has accumulated.
pub proof fn lemma_rotate_full_turn(m: Mat4V)
    requires
        mat_wf(m),
    ensures
        mat_mul(mat_mul(mat_mul(m, mat_rot_x(360 * FX_ONE as int)), mat_rot_y(0)), mat_rot_z(0))
            == m,
{
    lemma_trig_cardinal();
    assert(mat_rot_x(360 * FX_ONE as int) == mat_identity());
    assert(mat_rot_y(0) == mat_identity());
    assert(mat_rot_z(0) == mat_identity());
    lemma_mat_mul_identity_right(m);
    lemma_mat_mul_identity_right(mat_mul(m, mat_identity()));
}

/// Whether pixel `p` of a flat RGBA frame is transparent black or the
/// exact opaque magenta the rasterizer writes.
pub open spec fn pixel_blank_or_magenta(f: Seq<u8>, p: int) -> bool {
    ||| (f[4 * p] == 0 && f[4 * p + 1] == 0 && f[4 * p + 2] == 0 && f[4 * p + 3] == 0)
    ||| (f[4 * p] == 0xff && f[4 * p + 1] == 0 && f[4 * p + 2] == 0xff && f[4 * p + 3] == 0xff)
}

/// Plotting one object's vertices into a frame whose pixels are all
/// blank or magenta leaves every pixel blank or magenta.
proof fn lemma_render_verts_pixels(
    f: Seq<u8>,
    cam: Mat4V,
    obj: Mat4V,
    vs: Seq<Vec4V>,
    w: int,
    h: int,
)
    requires
        f.len() == 4 * (w * h),
        forall|p: int| 0 <= p < w * h ==> pixel_blank_or_magenta(f, p),
    ensures
        forall|p: int|
            0 <= p < w * h ==> pixel_blank_or_magenta(
                crate::scene::render_verts(f, cam, obj, vs, w, h),
                p,
            ),
    decreases vs.len(),
{
    if vs.len() > 0 {
        lemma_render_verts_pixels(f, cam, obj, vs.drop_last(), w, h);
        let g = crate::scene::render_verts(f, cam, obj, vs.drop_last(), w, h);
        crate::scene::lemma_render_verts_len(f, cam, obj, vs.drop_last(), w, h);
        match crate::scene::vert_index(cam, obj, vs.last(), w, h) {
            Some(i) => {
                let r = crate::scene::plot_px(g, i);
                assert(g.len() == 4 * (w * h));
                assert(0 <= i && i < w * h);
                assert forall|p: int| 0 <= p < w * h implies pixel_blank_or_magenta(r, p) by {
                    assert(pixel_blank_or_magenta(g, p));
                    if p == i {
                        assert(r[4 * p] == 0xff && r[4 * p + 1] == 0 && r[4 * p + 2] == 0xff && r[4
                            * p + 3] == 0xff);
                    } else {
                        assert(r[4 * p] == g[4 * p] && r[4 * p + 1] == g[4 * p + 1] && r[4 * p + 2]
                            == g[4 * p + 2] && r[4 * p + 3] == g[4 * p + 3]);
                    }
                }
            },
            None => {},
        }
    }
}

/// Rendering a list of objects into a frame whose pixels are all blank
/// or magenta leaves every pixel blank or magenta.
proof fn lemma_render_objs_pixels(
    f: Seq<u8>,
    cam: Mat4V,
    objs: Seq<crate::transform::TransformV>,
    w: int,
    h: int,
)
    requires
        f.len() == 4 * (w * h),
        forall|p: int| 0 <= p < w * h ==> pixel_blank_or_magenta(f, p),
    ensures
        forall|p: int|
            0 <= p < w * h ==> pixel_blank_or_magenta(
                crate::scene::render_objs(f, cam, objs, w, h),
                p,
            ),
    decreases objs.len(),
{
    if objs.len() > 0 {
        lemma_render_objs_pixels(f, cam, objs.drop_last(), w, h);
        let g = crate::scene::render_objs(f, cam, objs.drop_last(), w, h);
        crate::scene::lemma_render_objs_len(f, cam, objs.drop_last(), w, h);
        match objs.last().mesh {
            Some(vs) => {
                lemma_render_verts_pixels(g, cam, objs.last().base, vs, w, h);
            },
            None => {},
        }
    }
}

/// Every pixel of a rendered frame is either still the cleared
/// transparent black or the exact opaque magenta the rasterizer writes:
/// rendering paints nothing else, whatever the scene holds.
pub proof fn lemma_rendered_pixels_blank_or_magenta(s: crate::scene::SceneV, w: int, h: int)
    requires
        0 <= w,
        0 <= h,
    ensures
        forall|p: int|
            0 <= p < w * h ==> pixel_blank_or_magenta(crate::scene::render_spec(s, w, h), p),
{
    let blank = crate::scene::blank_frame(w * h);
    assert(0 <= w * h) by (nonlinear_arith)
        requires
            0 <= w,
            0 <= h,
    ;
    assert forall|p: int| 0 <= p < w * h implies pixel_blank_or_magenta(blank, p) by {
        assert(blank[4 * p] == 0 && blank[4 * p + 1] == 0 && blank[4 * p + 2] == 0 && blank[4 * p
            + 3] == 0);
    }
    lemma_render_objs_pixels(blank, s.camera.base, s.objects, w, h);
}

/// Euclidean division of a negative value by a positive one is negative.
proof fn lemma_div_neg(p: int, d: int)
    requires
        p < 0,
        0 < d,
    ensures
        p / d < 0,
{
    lemma_fundamental_div_mod(p, d);
    let q = p / d;
    let r = p % d;
    assert(q < 0) by (nonlinear_arith)
        requires
            p < 0,
            0 < d,
            p == d * q + r,
            0 <= r < d,
    ;
}

/// A vertex on the camera axis, with the camera and the object both at
/// identity and its depth between the near and the far plane, lands on
/// the exact viewport center: half the width and half the height, as
/// exact raw scalar values.
pub proof fn lemma_center_projection(w: int, h: int, z: int)
    requires
        0 < w <= 0x4000,
        0 < h <= 0x4000,
        NEAR as int <= z <= FAR as int,
    ensures
        ({
            let v = Vec4V { x: 0, y: 0, z: z, w: FX_ONE as int };
            let wc = mat_vec_mul(mat_identity(), v);
            let cc = mat_vec_mul(mat_identity(), wc);
            camera_screen(fx_of_int(w), fx_of_int(h), cc) == Some(
                (32768 * w, 32768 * h),
            )
        }),
{
    let v = Vec4V { x: 0, y: 0, z: z, w: FX_ONE as int };
    lemma_mat_vec_identity(v);
    let wr = fx_of_int(w);
    let hr = fx_of_int(h);
    assert(wr == w * (FX_ONE as int)) by (nonlinear_arith)
        requires
            0 < w <= 0x4000,
            wr == crate::fx::fx_clamp(w * (FX_ONE as int)),
            FX_ONE == 65536,
    ;
    assert(hr == h * (FX_ONE as int)) by (nonlinear_arith)
        requires
            0 < h <= 0x4000,
            hr == crate::fx::fx_clamp(h * (FX_ONE as int)),
            FX_ONE == 65536,
    ;
    let persp = crate::scene::perspective_spec(FOV_DEG as int, wr, hr);
    let clip = mat_vec_mul(persp, v);

    // The first two rows have zeros where `v` is nonzero, so the clip x
    // and y are exactly zero.
    lemma_fx_mul_zero(persp.r0.x);
    lemma_fx_mul_zero(persp.r1.y);
    lemma_fx_mul_zero(z);
    lemma_fx_mul_zero(FX_ONE as int);
    assert(clip.x == 0);
    assert(clip.y == 0);

    // Row 3 multiplies the depth by the negative constant that carries
    // the clip w, so the clip w is strictly negative, never zero.
    let zw = persp.r3.z;
    assert(zw == -78643) by {
        assert(fx_mul(2 * FX_ONE as int, NEAR as int) == FX_ONE as int);
        assert(fx_mul(FX_ONE as int, FAR as int) == FAR as int) by {
            lemma_fx_mul_one(FAR as int);
        }
        assert(crate::fx::fx_div(FAR as int, NEAR as int - FAR as int) == -78643) by {
            assert((196608 * 65536int) / (-163840int) == -78643);
        }
    }
    assert(clip.w == fx_mul(zw, z)) by {
        lemma_fx_mul_zero(persp.r3.x);
        lemma_fx_mul_zero(persp.r3.y);
        lemma_fx_mul_zero(persp.r3.w);
    }
    assert(zw * z <= -32768 * 78643) by (nonlinear_arith)
        requires
            zw == -78643,
            32768 <= z,
    ;
    lemma_div_neg(zw * z, FX_ONE as int);
    assert(clip.w < 0);

    // With a zero numerator the perspective divide is zero, and only the
    // recentering term remains: exactly half the viewport, whose raw
    // value is in range because the viewport is bounded.
    let denom = fx_mul(2 * FX_ONE as int, clip.w);
    assert(crate::fx::fx_mul(clip.x, wr) == 0) by {
        lemma_fx_mul_zero(wr);
    }
    assert(crate::fx::fx_mul(clip.y, hr) == 0) by {
        lemma_fx_mul_zero(hr);
    }
    assert(denom != 0) by {
        assert(2 * (FX_ONE as int) * clip.w <= 2 * (FX_ONE as int) * -1) by (nonlinear_arith)
            requires
                clip.w <= -1,
                FX_ONE == 65536,
        ;
        lemma_div_neg(2 * (FX_ONE as int) * clip.w, FX_ONE as int);
    }
    assert(crate::fx::fx_div(0, denom) == 0) by {
        assert(0int * (FX_ONE as int) == 0);
        assert(0int / denom == 0) by (nonlinear_arith)
            requires
                denom != 0,
        ;
    }
    assert(fx_mul(32768, wr) == 32768 * w) by (nonlinear_arith)
        requires
            wr == w * 65536,
            0 < w <= 0x4000,
            FX_ONE == 65536,
            fx_mul(32768, wr) == crate::fx::fx_clamp((32768 * wr) / 65536),
    ;
    assert(fx_mul(32768, hr) == 32768 * h) by (nonlinear_arith)
        requires
            hr == h * 65536,
            0 < h <= 0x4000,
            FX_ONE == 65536,
            fx_mul(32768, hr) == crate::fx::fx_clamp((32768 * hr) / 65536),
    ;
}

} // verus!
