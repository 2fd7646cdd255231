//! Scene-graph nodes: a 4x4 transform matrix, optional mesh data, and
//! child nodes. Translate and rotate operations right-multiply an
//! incremental matrix onto `base`, so repeated calls accumulate in the
//! node's local frame.

use vstd::prelude::*;
use crate::fx::{Fx, fx_neg, FX_ONE};
use crate::mat::{Mat4, Mat4V, Vec4, Vec4V, mat_identity, mat_translation, mat_mul};
use crate::mesh_data::MeshData;
use crate::trig::{sin_deg, cos_deg, fx_sin_deg, fx_cos_deg};

verus! {

/// A transform node. `children` supports future hierarchical composition;
/// the render pipeline walks only the flat scene list, so the node's
/// mathematical value below abstracts `base` and `mesh` alone.
pub struct Transform {
    pub base: Mat4,
    pub mesh: Option<MeshData>,
    pub children: Vec<Transform>,
}

/// The mathematical value of a transform node: its matrix and, if it owns
/// one, the sequence of its mesh vertices.
pub ghost struct TransformV {
    pub base: Mat4V,
    pub mesh: Option<Seq<Vec4V>>,
}

impl View for Transform {
    type V = TransformV;

    open spec fn view(&self) -> TransformV {
        TransformV {
            base: self.base@,
            mesh: match self.mesh {
                Some(m) => Some(m@),
                None => None,
            },
        }
    }
}

/// The rotation matrix about the X axis by `a` raw degree units.
pub open spec fn mat_rot_x(a: int) -> Mat4V {
    let c = cos_deg(a);
    let s = sin_deg(a);
    Mat4V {
        r0: Vec4V { x: FX_ONE as int, y: 0, z: 0, w: 0 },
        r1: Vec4V { x: 0, y: c, z: fx_neg(s), w: 0 },
        r2: Vec4V { x: 0, y: s, z: c, w: 0 },
        r3: Vec4V { x: 0, y: 0, z: 0, w: FX_ONE as int },
    }
}

/// The rotation matrix about the Y axis by `a` raw degree units.
pub open spec fn mat_rot_y(a: int) -> Mat4V {
    let c = cos_deg(a);
    let s = sin_deg(a);
    Mat4V {
        r0: Vec4V { x: c, y: 0, z: s, w: 0 },
        r1: Vec4V { x: 0, y: FX_ONE as int, z: 0, w: 0 },
        r2: Vec4V { x: fx_neg(s), y: 0, z: c, w: 0 },
        r3: Vec4V { x: 0, y: 0, z: 0, w: FX_ONE as int },
    }
}

/// The rotation matrix about the Z axis by `a` raw degree units.
pub open spec fn mat_rot_z(a: int) -> Mat4V {
    let c = cos_deg(a);
    let s = sin_deg(a);
    Mat4V {
        r0: Vec4V { x: c, y: fx_neg(s), z: 0, w: 0 },
        r1: Vec4V { x: s, y: c, z: 0, w: 0 },
        r2: Vec4V { x: 0, y: 0, z: FX_ONE as int, w: 0 },
        r3: Vec4V { x: 0, y: 0, z: 0, w: FX_ONE as int },
    }
}

/// The eight corner vertices of the unit cube, each coordinate +/-1 and
/// `w` exactly 1, in the fixed seeding order.
pub open spec fn cube_verts() -> Seq<Vec4V> {
    let p = FX_ONE as int;
    let n = -(FX_ONE as int);
    seq![
        Vec4V { x: p, y: p, z: n, w: p },
        Vec4V { x: p, y: n, z: n, w: p },
        Vec4V { x: p, y: p, z: p, w: p },
        Vec4V { x: p, y: n, z: p, w: p },
        Vec4V { x: n, y: p, z: n, w: p },
        Vec4V { x: n, y: n, z: n, w: p },
        Vec4V { x: n, y: p, z: p, w: p },
        Vec4V { x: n, y: n, z: p, w: p },
    ]
}

impl Transform {
    /// A pure pivot node: identity matrix, no mesh, no children.
    pub fn new() -> (r: Transform)
        ensures
            r@.base == mat_identity(),
            r@.mesh is None,
            r.children@.len() == 0,
    {
        Transform { base: Mat4::identity(), mesh: None, children: Vec::new() }
    }

    /// A pivot node whose matrix is the translation by (x, y, z).
    pub fn new_translation(x: Fx, y: Fx, z: Fx) -> (r: Transform)
        ensures
            r@.base == mat_translation(x@, y@, z@),
            r@.mesh is None,
            r.children@.len() == 0,
    {
        Transform { base: Mat4::translation(x, y, z), mesh: None, children: Vec::new() }
    }

    /// Seed the node with the unit-cube mesh and, as a deliberate side
    /// effect, translate it by (2, 0, 0).
    pub fn setup_default_cube(&mut self)
        ensures
            final(self)@.base == mat_mul(
                old(self)@.base,
                mat_translation(2 * FX_ONE as int, 0, 0),
            ),
            final(self)@.mesh == Some(cube_verts()),
            final(self).children == old(self).children,
    {
        let p = Fx::one();
        let n = Fx::one().neg();
        let mut verts: Vec<Vec4> = Vec::new();
        verts.push(Vec4 { x: p, y: p, z: n, w: p });
        verts.push(Vec4 { x: p, y: n, z: n, w: p });
        verts.push(Vec4 { x: p, y: p, z: p, w: p });
        verts.push(Vec4 { x: p, y: n, z: p, w: p });
        verts.push(Vec4 { x: n, y: p, z: n, w: p });
        verts.push(Vec4 { x: n, y: n, z: n, w: p });
        verts.push(Vec4 { x: n, y: p, z: p, w: p });
        verts.push(Vec4 { x: n, y: n, z: p, w: p });
        Transform::translate(self, Fx::from_int(2), Fx::zero(), Fx::zero());
        proof {
            assert(verts@.map_values(|v: Vec4| v@) =~= cube_verts());
        }
        self.mesh = Some(MeshData { verts });
    }

    /// Right-multiply a translation by (x, y, z) onto this node's matrix.
    pub fn translate_self(&mut self, x: Fx, y: Fx, z: Fx)
        ensures
            final(self)@.base == mat_mul(old(self)@.base, mat_translation(x@, y@, z@)),
            final(self)@.mesh == old(self)@.mesh,
            final(self).children == old(self).children,
    {
        Transform::translate(self, x, y, z)
    }

    /// Right-multiply rotations about X, then Y, then Z, in that fixed
    /// order, angles in degrees.
    pub fn rotate_self(&mut self, x: Fx, y: Fx, z: Fx)
        ensures
            final(self)@.base == mat_mul(
                mat_mul(mat_mul(old(self)@.base, mat_rot_x(x@)), mat_rot_y(y@)),
                mat_rot_z(z@),
            ),
            final(self)@.mesh == old(self)@.mesh,
            final(self).children == old(self).children,
    {
        Transform::rotate_x(self, x);
        Transform::rotate_y(self, y);
        Transform::rotate_z(self, z);
    }

    /// Right-multiply a translation by (x, y, z) onto the node's matrix.
    pub fn translate(transform: &mut Transform, x: Fx, y: Fx, z: Fx)
        ensures
            final(transform)@.base == mat_mul(old(transform)@.base, mat_translation(x@, y@, z@)),
            final(transform)@.mesh == old(transform)@.mesh,
            final(transform).children == old(transform).children,
    {
        let matrix = Mat4::translation(x, y, z);
        transform.base = transform.base.mul(&matrix);
    }

    /// Right-multiply the Y-axis rotation by `angle` degrees.
    pub fn rotate_y(transform: &mut Transform, angle: Fx)
        ensures
            final(transform)@.base == mat_mul(old(transform)@.base, mat_rot_y(angle@)),
            final(transform)@.mesh == old(transform)@.mesh,
            final(transform).children == old(transform).children,
    {
        let c = fx_cos_deg(angle);
        let s = fx_sin_deg(angle);
        let z = Fx::zero();
        let o = Fx::one();
        let matrix = Mat4 {
            r0: Vec4 { x: c, y: z, z: s, w: z },
            r1: Vec4 { x: z, y: o, z: z, w: z },
            r2: Vec4 { x: s.neg(), y: z, z: c, w: z },
            r3: Vec4 { x: z, y: z, z: z, w: o },
        };
        transform.base = transform.base.mul(&matrix);
    }

    /// Right-multiply the X-axis rotation by `angle` degrees.
    pub fn rotate_x(transform: &mut Transform, angle: Fx)
        ensures
            final(transform)@.base == mat_mul(old(transform)@.base, mat_rot_x(angle@)),
            final(transform)@.mesh == old(transform)@.mesh,
            final(transform).children == old(transform).children,
    {
        let c = fx_cos_deg(angle);
        let s = fx_sin_deg(angle);
        let z = Fx::zero();
        let o = Fx::one();
        let matrix = Mat4 {
            r0: Vec4 { x: o, y: z, z: z, w: z },
            r1: Vec4 { x: z, y: c, z: s.neg(), w: z },
            r2: Vec4 { x: z, y: s, z: c, w: z },
            r3: Vec4 { x: z, y: z, z: z, w: o },
        };
        transform.base = transform.base.mul(&matrix);
    }

    /// Right-multiply the Z-axis rotation by `angle` degrees.
    pub fn rotate_z(transform: &mut Transform, angle: Fx)
        ensures
            final(transform)@.base == mat_mul(old(transform)@.base, mat_rot_z(angle@)),
            final(transform)@.mesh == old(transform)@.mesh,
            final(transform).children == old(transform).children,
    {
        let c = fx_cos_deg(angle);
        let s = fx_sin_deg(angle);
        let z = Fx::zero();
        let o = Fx::one();
        let matrix = Mat4 {
            r0: Vec4 { x: c, y: s.neg(), z: z, w: z },
            r1: Vec4 { x: s, y: c, z: z, w: z },
            r2: Vec4 { x: z, y: z, z: o, w: z },
            r3: Vec4 { x: z, y: z, z: z, w: o },
        };
        transform.base = transform.base.mul(&matrix);
    }
}

} // verus!
