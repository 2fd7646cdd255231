//! The scene: a camera node and a flat, ordered list of object nodes, and
//! the per-frame pipeline that turns every mesh vertex into at most one
//! magenta pixel of a flat RGBA framebuffer.
//!
//! Per vertex: world point = object matrix times vertex; camera-space
//! point = camera matrix times world point (the camera matrix is applied
//! forward, not inverted — moving the camera moves the world the same
//! way, deliberately); clip point = perspective matrix times camera-space
//! point; then the screen mapping divides by twice the clip `w` and
//! recenters. A clip `w` of exactly zero is dropped silently; there is no
//! other clipping, only the final bounds check on the flat pixel index.

use vstd::prelude::*;
use crate::fx::{Fx, fx_add, fx_mul, fx_div, fx_floor, fx_of_int, FX_ONE};
use crate::mat::{Mat4, Mat4V, Vec4, Vec4V, mat_vec_mul, mat_identity};
use crate::transform::{Transform, TransformV};

verus! {

/// The fixed near plane distance, 0.5, in raw units.
pub const NEAR: i64 = 32768;

/// The fixed far plane distance, 3.0, in raw units.
pub const FAR: i64 = 3 * 65536;

/// The fixed field of view of the render pipeline, 60 degrees, in raw
/// units.
pub const FOV_DEG: i64 = 60 * 65536;

/// The perspective projection matrix for a field of view of `angle` raw
/// degree units and a viewport of raw width `w` and height `h`. Row 2
/// carries the clip `w` through its last entry; row 3 carries the depth
/// offset. This exact arrangement is what the screen mapping depends on.
pub open spec fn perspective_spec(angle: int, w: int, h: int) -> Mat4V {
    let half = fx_div(angle, 2 * FX_ONE as int);
    let fov = fx_div(crate::trig::cos_deg(half), crate::trig::sin_deg(half));
    let aspect = fx_div(w, h);
    Mat4V {
        r0: Vec4V { x: fx_mul(fov, aspect), y: 0, z: 0, w: 0 },
        r1: Vec4V { x: 0, y: fov, z: 0, w: 0 },
        r2: Vec4V {
            x: 0,
            y: 0,
            z: fx_div(FAR as int + NEAR as int, FAR as int - NEAR as int),
            w: FX_ONE as int,
        },
        r3: Vec4V {
            x: 0,
            y: 0,
            z: fx_div(fx_mul(fx_mul(2 * FX_ONE as int, NEAR as int), FAR as int),
                NEAR as int - FAR as int),
            w: 0,
        },
    }
}

/// The orthographic projection matrix for a viewport of raw width `w` and
/// height `h`, with a far plane of one and a near plane of zero. Retained
/// as the alternative projection mode; the active pipeline uses
/// `perspective_spec`.
pub open spec fn ortho_spec(w: int, h: int) -> Mat4V {
    let f1 = fx_div(2 * FX_ONE as int, FX_ONE as int - 0);
    let f2 = fx_div(FX_ONE as int + 0, FX_ONE as int - 0);
    Mat4V {
        r0: Vec4V { x: fx_div(FX_ONE as int, w), y: 0, z: 0, w: 0 },
        r1: Vec4V { x: 0, y: fx_div(FX_ONE as int, h), z: 0, w: 0 },
        r2: Vec4V { x: 0, y: 0, z: f1, w: f2 },
        r3: Vec4V { x: 0, y: 0, z: 0, w: FX_ONE as int },
    }
}

/// Map a clip-space point to screen coordinates for a viewport of raw
/// width `w` and height `h`: divide by twice the clip `w` and recenter.
/// A clip `w` of exactly zero has no quotient and is dropped.
pub open spec fn screen_point(w: int, h: int, t: Vec4V) -> Option<(int, int)> {
    if t.w == 0 {
        None
    } else {
        let sx = fx_add(fx_div(fx_mul(t.x, w), fx_mul(2 * FX_ONE as int, t.w)),
            fx_mul(FX_ONE as int / 2, w));
        let sy = fx_add(fx_div(fx_mul(t.y, h), fx_mul(2 * FX_ONE as int, t.w)),
            fx_mul(FX_ONE as int / 2, h));
        Some((sx, sy))
    }
}

/// The screen coordinates of a camera-space point under the pipeline's
/// fixed 60-degree perspective projection.
pub open spec fn camera_screen(w: int, h: int, p: Vec4V) -> Option<(int, int)> {
    screen_point(w, h, mat_vec_mul(perspective_spec(FOV_DEG as int, w, h), p))
}

/// The flat framebuffer index a vertex of an object lands on, if any:
/// the vertex is taken to world space, camera space, and the screen, and
/// the floored coordinates are combined row-major. Indices outside
/// `[0, w * h)` are dropped; `w` and `h` are in pixels.
pub open spec fn vert_index(cam: Mat4V, obj: Mat4V, v: Vec4V, w: int, h: int) -> Option<int> {
    let wc = mat_vec_mul(obj, v);
    let cc = mat_vec_mul(cam, wc);
    match camera_screen(fx_of_int(w), fx_of_int(h), cc) {
        None => None,
        Some(p) => {
            let idx = fx_floor(p.0) + w * fx_floor(p.1);
            if 0 <= idx && idx < w * h {
                Some(idx)
            } else {
                None
            }
        },
    }
}

/// A framebuffer of `n` pixels cleared to transparent black.
pub open spec fn blank_frame(n: int) -> Seq<u8> {
    Seq::new((4 * n) as nat, |i: int| 0u8)
}

/// The frame with an opaque magenta pixel written at flat index `idx`.
pub open spec fn plot_px(f: Seq<u8>, idx: int) -> Seq<u8> {
    f.update(4 * idx, 0xffu8).update(4 * idx + 1, 0x00u8).update(4 * idx + 2, 0xffu8).update(
        4 * idx + 3,
        0xffu8,
    )
}

/// The frame after plotting the vertices of one object, in order.
pub open spec fn render_verts(
    f: Seq<u8>,
    cam: Mat4V,
    obj: Mat4V,
    vs: Seq<Vec4V>,
    w: int,
    h: int,
) -> Seq<u8>
    decreases vs.len(),
{
    if vs.len() == 0 {
        f
    } else {
        let g = render_verts(f, cam, obj, vs.drop_last(), w, h);
        match vert_index(cam, obj, vs.last(), w, h) {
            Some(i) => plot_px(g, i),
            None => g,
        }
    }
}

/// The frame after rendering a list of objects, in list order; objects
/// without a mesh contribute nothing.
pub open spec fn render_objs(f: Seq<u8>, cam: Mat4V, objs: Seq<TransformV>, w: int, h: int) -> Seq<
    u8,
>
    decreases objs.len(),
{
    if objs.len() == 0 {
        f
    } else {
        let g = render_objs(f, cam, objs.drop_last(), w, h);
        let o = objs.last();
        match o.mesh {
            Some(vs) => render_verts(g, cam, o.base, vs, w, h),
            None => g,
        }
    }
}

/// The whole frame a scene renders to at `w` by `h` pixels: a cleared
/// buffer with every object's vertices plotted in order. `draw` writes
/// exactly this, so a scene left unchanged draws the identical frame
/// twice.
pub open spec fn render_spec(s: SceneV, w: int, h: int) -> Seq<u8> {
    render_objs(blank_frame(w * h), s.camera.base, s.objects, w, h)
}

/// Plotting inside the buffer keeps its length.
pub proof fn lemma_render_verts_len(
    f: Seq<u8>,
    cam: Mat4V,
    obj: Mat4V,
    vs: Seq<Vec4V>,
    w: int,
    h: int,
)
    requires
        f.len() == 4 * (w * h),
    ensures
        render_verts(f, cam, obj, vs, w, h).len() == f.len(),
    decreases vs.len(),
{
    if vs.len() > 0 {
        lemma_render_verts_len(f, cam, obj, vs.drop_last(), w, h);
    }
}

/// Rendering any object list keeps the buffer's length.
pub proof fn lemma_render_objs_len(f: Seq<u8>, cam: Mat4V, objs: Seq<TransformV>, w: int, h: int)
    requires
        f.len() == 4 * (w * h),
    ensures
        render_objs(f, cam, objs, w, h).len() == f.len(),
    decreases objs.len(),
{
    if objs.len() > 0 {
        lemma_render_objs_len(f, cam, objs.drop_last(), w, h);
        let o = objs.last();
        match o.mesh {
            Some(vs) => {
                lemma_render_verts_len(
                    render_objs(f, cam, objs.drop_last(), w, h),
                    cam,
                    o.base,
                    vs,
                    w,
                    h,
                );
            },
            None => {},
        }
    }
}

/// Write one opaque magenta pixel at flat pixel index `idx`.
fn plot(buf: &mut Vec<u8>, idx: usize)
    requires
        idx <= 0x10000000,
        4 * idx + 4 <= old(buf)@.len(),
    ensures
        final(buf)@ == plot_px(old(buf)@, idx as int),
{
    let base: usize = 4 * idx;
    buf[base] = 0xff;
    buf[base + 1] = 0x00;
    buf[base + 2] = 0xff;
    buf[base + 3] = 0xff;
}

/// A scene: one camera node (mesh always absent) and the ordered list of
/// independently owned object nodes.
pub struct Scene {
    pub camera: Transform,
    pub objects: Vec<Transform>,
}

/// The mathematical value of a scene: the camera's value and the values
/// of the objects, in list order.
pub ghost struct SceneV {
    pub camera: TransformV,
    pub objects: Seq<TransformV>,
}

impl View for Scene {
    type V = SceneV;

    open spec fn view(&self) -> SceneV {
        SceneV { camera: self.camera@, objects: self.objects@.map_values(|t: Transform| t@) }
    }
}

/// Build the perspective projection matrix for a field of view of `angle`
/// degrees and a viewport of width `w` and height `h`.
pub fn perspective_matrix(angle: Fx, w: Fx, h: Fx) -> (m: Mat4)
    ensures
        m@ == perspective_spec(angle@, w@, h@),
{
    let half = angle.div(Fx::from_int(2));
    let fov = crate::trig::fx_cos_deg(half).div(crate::trig::fx_sin_deg(half));
    let aspect = w.div(h);
    let zr = Fx::zero();
    proof {
        assert(fx_of_int(2) == 2 * FX_ONE as int);
    }
    Mat4 {
        r0: Vec4 { x: fov.mul(aspect), y: zr, z: zr, w: zr },
        r1: Vec4 { x: zr, y: fov, z: zr, w: zr },
        r2: Vec4 {
            x: zr,
            y: zr,
            z: Fx::from_raw(FAR + NEAR).div(Fx::from_raw(FAR - NEAR)),
            w: Fx::one(),
        },
        r3: Vec4 {
            x: zr,
            y: zr,
            z: Fx::from_int(2).mul(Fx::from_raw(NEAR)).mul(Fx::from_raw(FAR)).div(
                Fx::from_raw(NEAR - FAR),
            ),
            w: zr,
        },
    }
}

/// Build the orthographic projection matrix for a viewport of width `w`
/// and height `h`.
pub fn ortho_matrix(w: Fx, h: Fx) -> (m: Mat4)
    ensures
        m@ == ortho_spec(w@, h@),
{
    let far = Fx::one();
    let near = Fx::zero();
    let f1 = Fx::from_int(2).div(far.add(near.neg()));
    let f2 = far.add(near).div(far.add(near.neg()));
    let zr = Fx::zero();
    Mat4 {
        r0: Vec4 { x: Fx::one().div(w), y: zr, z: zr, w: zr },
        r1: Vec4 { x: zr, y: Fx::one().div(h), z: zr, w: zr },
        r2: Vec4 { x: zr, y: zr, z: f1, w: f2 },
        r3: Vec4 { x: zr, y: zr, z: zr, w: Fx::one() },
    }
}

impl Scene {
    /// An empty scene: identity camera, no objects.
    pub fn new() -> (r: Scene)
        ensures
            r@.camera.base == mat_identity(),
            r@.camera.mesh is None,
            r@.objects.len() == 0,
    {
        Scene { camera: Transform::new(), objects: Vec::new() }
    }

    /// Append one object, taking ownership of it.
    pub fn add_object(&mut self, transform: Transform)
        ensures
            final(self)@.objects == old(self)@.objects.push(transform@),
            final(self)@.camera == old(self)@.camera,
    {
        let ghost before = self@.objects;
        self.objects.push(transform);
        proof {
            assert(self@.objects =~= before.push(transform@));
        }
    }

    /// Append the demonstration object: a default cube first placed at
    /// (0.5, 9, 0.2), with the last offset rounded down to the nearest
    /// representable raw value.
    pub fn add_test_objects(&mut self)
        ensures
            final(self)@.objects == old(self)@.objects.push(
                TransformV {
                    base: crate::mat::mat_mul(
                        crate::mat::mat_translation(FX_ONE as int / 2, 9 * FX_ONE as int, 13107),
                        crate::mat::mat_translation(2 * FX_ONE as int, 0, 0),
                    ),
                    mesh: Some(crate::transform::cube_verts()),
                },
            ),
            final(self)@.camera == old(self)@.camera,
    {
        let ghost before = self@.objects;
        let mut cubed = Transform::new_translation(
            Fx::from_raw(32768),
            Fx::from_int(9),
            Fx::from_raw(13107),
        );
        cubed.setup_default_cube();
        self.objects.push(cubed);
        proof {
            assert(self@.objects =~= before.push(cubed@));
        }
    }

    /// Move the camera to its default pose: down two units, then a
    /// quarter turn about X.
    pub fn set_default_camera_position(&mut self)
        ensures
            final(self)@.camera.base == crate::mat::mat_mul(
                crate::mat::mat_mul(
                    old(self)@.camera.base,
                    crate::mat::mat_translation(0, -2 * FX_ONE as int, 0),
                ),
                crate::transform::mat_rot_x(90 * FX_ONE as int),
            ),
            final(self)@.camera.mesh == old(self)@.camera.mesh,
            final(self)@.objects == old(self)@.objects,
    {
        Transform::translate(&mut self.camera, Fx::zero(), Fx::from_int(-2), Fx::zero());
        Transform::rotate_x(&mut self.camera, Fx::from_int(90));
    }

    /// Take a point from an object's local space to world space.
    pub fn local_to_world(&self, t: &Transform, p: Vec4) -> (r: Vec4)
        ensures
            r@ == mat_vec_mul(t@.base, p@),
    {
        t.base.apply(&p)
    }

    /// Take a world-space point to camera space; the camera matrix is
    /// applied forward, not inverted.
    pub fn world_to_camera(&self, p: Vec4) -> (r: Vec4)
        ensures
            r@ == mat_vec_mul(self@.camera.base, p@),
    {
        self.camera.base.apply(&p)
    }

    /// Map a camera-space point to screen coordinates for a viewport of
    /// width `w` and height `h`. Returns nothing exactly when the
    /// projected clip `w` is zero.
    pub fn camera_to_screen(&self, w: Fx, h: Fx, p: Vec4) -> (r: Option<(Fx, Fx)>)
        ensures
            match (r, camera_screen(w@, h@, p@)) {
                (Some(rp), Some(sp)) => rp.0@ == sp.0 && rp.1@ == sp.1,
                (None, None) => true,
                _ => false,
            },
    {
        let m = perspective_matrix(Fx::from_raw(FOV_DEG), w, h);
        let t = m.apply(&p);
        if t.w.raw == 0 {
            None
        } else {
            let d = Fx::from_int(2).mul(t.w);
            let x = t.x.mul(w).div(d).add(Fx::from_raw(32768).mul(w));
            let y = t.y.mul(h).div(d).add(Fx::from_raw(32768).mul(h));
            Some((x, y))
        }
    }

    /// Render every object into a fresh framebuffer of `w` by `h` pixels,
    /// 4 bytes per pixel, row-major, cleared to transparent black first.
    pub fn render_objects(&self, w: usize, h: usize) -> (buf: Vec<u8>)
        requires
            w <= 0x4000,
            h <= 0x4000,
        ensures
            buf@ == render_spec(self@, w as int, h as int),
            buf@.len() == 4 * (w * h),
    {
        let ghost cam = self@.camera.base;
        let ghost objs = self@.objects;
        let ghost wh = (w * h) as int;
        proof {
            assert(w * h <= 0x10000000) by (nonlinear_arith)
                requires
                    w <= 0x4000,
                    h <= 0x4000,
            ;
        }
        let total: usize = 4 * (w * h);
        let mut buf: Vec<u8> = Vec::new();
        let mut k: usize = 0;
        while k < total
            invariant
                k <= total,
                buf@.len() == k,
                forall|l: int| 0 <= l < k ==> buf@[l] == 0u8,
            decreases total - k,
        {
            buf.push(0u8);
            k += 1;
        }
        proof {
            assert(buf@ =~= blank_frame(wh));
        }
        let wfx = Fx::from_int(w as i64);
        let hfx = Fx::from_int(h as i64);
        let mut i: usize = 0;
        while i < self.objects.len()
            invariant
                i <= self.objects.len(),
                w <= 0x4000,
                h <= 0x4000,
                wh == w * h,
                wh <= 0x10000000,
                cam == self@.camera.base,
                objs == self@.objects,
                wfx@ == fx_of_int(w as int),
                hfx@ == fx_of_int(h as int),
                buf@ == render_objs(blank_frame(wh), cam, objs.take(i as int), w as int, h as int),
                buf@.len() == 4 * wh,
            decreases self.objects.len() - i,
        {
            let obj = &self.objects[i];
            proof {
                assert(objs[i as int] == obj@);
            }
            match &obj.mesh {
                Some(md) => {
                    let ghost fstart = buf@;
                    let ghost vs = md@;
                    proof {
                        assert(objs[i as int].mesh == Some(vs));
                    }
                    let mut j: usize = 0;
                    while j < md.verts.len()
                        invariant
                            j <= md.verts.len(),
                            w <= 0x4000,
                            h <= 0x4000,
                            wh == w * h,
                            wh <= 0x10000000,
                            cam == self@.camera.base,
                            wfx@ == fx_of_int(w as int),
                            hfx@ == fx_of_int(h as int),
                            vs == md@,
                            buf@ == render_verts(fstart, cam, obj@.base, vs.take(j as int),
                                w as int, h as int),
                            buf@.len() == 4 * wh,
                            fstart.len() == 4 * wh,
                        decreases md.verts.len() - j,
                    {
                        let vert = md.verts[j];
                        proof {
                            assert(vs[j as int] == vert@);
                        }
                        let wc = self.local_to_world(obj, vert);
                        let cc = self.world_to_camera(wc);
                        let xy = self.camera_to_screen(wfx, hfx, cc);
                        match xy {
                            Some(p) => {
                                let (sx, sy) = p;
                                let ix: i64 = sx.floor();
                                let iy: i64 = sy.floor();
                                proof {
                                    assert(-0x200000000000000000000
                                        <= (w as int) * (iy as int)
                                        <= 0x200000000000000000000) by (nonlinear_arith)
                                        requires
                                            0 <= w <= 0x4000,
                                            i64::MIN <= iy <= i64::MAX,
                                    ;
                                }
                                let idx: i128 = (ix as i128) + (w as i128) * (iy as i128);
                                if idx >= 0 && idx < (w as i128) * (h as i128) {
                                    plot(&mut buf, idx as usize);
                                }
                            },
                            None => {},
                        }
                        proof {
                            assert(vs.take(j as int + 1).drop_last() =~= vs.take(j as int));
                            assert(vs.take(j as int + 1).last() == vs[j as int]);
                        }
                        j += 1;
                    }
                    proof {
                        assert(vs.take(md.verts.len() as int) =~= vs);
                    }
                },
                None => {},
            }
            proof {
                assert(objs.take(i as int + 1).drop_last() =~= objs.take(i as int));
                assert(objs.take(i as int + 1).last() == objs[i as int]);
            }
            i += 1;
        }
        proof {
            assert(objs.take(self.objects.len() as int) =~= objs);
        }
        buf
    }

    /// Fully overwrite `frame`, which must be exactly `w * h` pixels of 4
    /// bytes, with the frame this scene renders to. The frame written is a
    /// function of the scene state alone, so two draws with no mutation in
    /// between write bit-identical buffers.
    pub fn draw(&self, frame: &mut Vec<u8>, w: usize, h: usize)
        requires
            old(frame)@.len() == 4 * (w * h),
            w <= 0x4000,
            h <= 0x4000,
        ensures
            final(frame)@ == render_spec(self@, w as int, h as int),
    {
        let buf = self.render_objects(w, h);
        let mut k: usize = 0;
        while k < buf.len()
            invariant
                k <= buf.len(),
                buf@.len() == frame@.len(),
                buf@ == render_spec(self@, w as int, h as int),
                forall|l: int| 0 <= l < k ==> frame@[l] == buf@[l],
            decreases buf.len() - k,
        {
            let v = buf[k];
            frame[k] = v;
            k += 1;
        }
        proof {
            assert(frame@ =~= buf@);
        }
    }
}

} // verus!
