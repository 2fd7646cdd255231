//! Homogeneous 4-vectors and row-major 4x4 matrices over the fixed-point
//! scalar, applied to column vectors. A matrix entry `r_ij` of a product
//! `a * b` is the dot product of row `i` of `a` with column `j` of `b`,
//! computed left to right with the saturating scalar operations.

use vstd::prelude::*;
use crate::fx::{Fx, fx_add, fx_mul, FX_ONE};

verus! {

/// A homogeneous point or matrix row: (x, y, z, w).
#[derive(Clone, Copy, PartialEq, Eq, Structural, Debug)]
pub struct Vec4 {
    pub x: Fx,
    pub y: Fx,
    pub z: Fx,
    pub w: Fx,
}

/// The mathematical value of a `Vec4`: four raw integers.
pub ghost struct Vec4V {
    pub x: int,
    pub y: int,
    pub z: int,
    pub w: int,
}

impl View for Vec4 {
    type V = Vec4V;

    open spec fn view(&self) -> Vec4V {
        Vec4V { x: self.x@, y: self.y@, z: self.z@, w: self.w@ }
    }
}

/// A 4x4 matrix as four rows.
#[derive(Clone, Copy, PartialEq, Eq, Structural, Debug)]
pub struct Mat4 {
    pub r0: Vec4,
    pub r1: Vec4,
    pub r2: Vec4,
    pub r3: Vec4,
}

/// The mathematical value of a `Mat4`: four rows of raw integers.
pub ghost struct Mat4V {
    pub r0: Vec4V,
    pub r1: Vec4V,
    pub r2: Vec4V,
    pub r3: Vec4V,
}

impl View for Mat4 {
    type V = Mat4V;

    open spec fn view(&self) -> Mat4V {
        Mat4V { r0: self.r0@, r1: self.r1@, r2: self.r2@, r3: self.r3@ }
    }
}

/// Dot product of two 4-vectors, left to right, saturating.
pub open spec fn dot4(a: Vec4V, b: Vec4V) -> int {
    fx_add(fx_add(fx_add(fx_mul(a.x, b.x), fx_mul(a.y, b.y)), fx_mul(a.z, b.z)), fx_mul(a.w, b.w))
}

/// Column `0` of a matrix, as a vector.
pub open spec fn col0(m: Mat4V) -> Vec4V {
    Vec4V { x: m.r0.x, y: m.r1.x, z: m.r2.x, w: m.r3.x }
}

/// Column `1` of a matrix, as a vector.
pub open spec fn col1(m: Mat4V) -> Vec4V {
    Vec4V { x: m.r0.y, y: m.r1.y, z: m.r2.y, w: m.r3.y }
}

/// Column `2` of a matrix, as a vector.
pub open spec fn col2(m: Mat4V) -> Vec4V {
    Vec4V { x: m.r0.z, y: m.r1.z, z: m.r2.z, w: m.r3.z }
}

/// Column `3` of a matrix, as a vector.
pub open spec fn col3(m: Mat4V) -> Vec4V {
    Vec4V { x: m.r0.w, y: m.r1.w, z: m.r2.w, w: m.r3.w }
}

/// The matrix applied to a column vector: each component is the dot
/// product of the corresponding row with the vector.
pub open spec fn mat_vec_mul(m: Mat4V, v: Vec4V) -> Vec4V {
    Vec4V { x: dot4(m.r0, v), y: dot4(m.r1, v), z: dot4(m.r2, v), w: dot4(m.r3, v) }
}

/// The row-by-column matrix product.
pub open spec fn mat_mul(a: Mat4V, b: Mat4V) -> Mat4V {
    Mat4V {
        r0: Vec4V {
            x: dot4(a.r0, col0(b)),
            y: dot4(a.r0, col1(b)),
            z: dot4(a.r0, col2(b)),
            w: dot4(a.r0, col3(b)),
        },
        r1: Vec4V {
            x: dot4(a.r1, col0(b)),
            y: dot4(a.r1, col1(b)),
            z: dot4(a.r1, col2(b)),
            w: dot4(a.r1, col3(b)),
        },
        r2: Vec4V {
            x: dot4(a.r2, col0(b)),
            y: dot4(a.r2, col1(b)),
            z: dot4(a.r2, col2(b)),
            w: dot4(a.r2, col3(b)),
        },
        r3: Vec4V {
            x: dot4(a.r3, col0(b)),
            y: dot4(a.r3, col1(b)),
            z: dot4(a.r3, col2(b)),
            w: dot4(a.r3, col3(b)),
        },
    }
}

/// The identity matrix value.
pub open spec fn mat_identity() -> Mat4V {
    Mat4V {
        r0: Vec4V { x: FX_ONE as int, y: 0, z: 0, w: 0 },
        r1: Vec4V { x: 0, y: FX_ONE as int, z: 0, w: 0 },
        r2: Vec4V { x: 0, y: 0, z: FX_ONE as int, w: 0 },
        r3: Vec4V { x: 0, y: 0, z: 0, w: FX_ONE as int },
    }
}

/// The translation matrix value: identity with (x, y, z) in the last column.
pub open spec fn mat_translation(x: int, y: int, z: int) -> Mat4V {
    Mat4V {
        r0: Vec4V { x: FX_ONE as int, y: 0, z: 0, w: x },
        r1: Vec4V { x: 0, y: FX_ONE as int, z: 0, w: y },
        r2: Vec4V { x: 0, y: 0, z: FX_ONE as int, w: z },
        r3: Vec4V { x: 0, y: 0, z: 0, w: FX_ONE as int },
    }
}

impl Vec4 {
    /// Build a vector from four scalars.
    pub fn new(x: Fx, y: Fx, z: Fx, w: Fx) -> (r: Vec4)
        ensures
            r@ == (Vec4V { x: x@, y: y@, z: z@, w: w@ }),
    {
        Vec4 { x, y, z, w }
    }

    /// Dot product with another vector.
    pub fn dot(&self, o: &Vec4) -> (r: Fx)
        ensures
            r@ == dot4(self@, o@),
    {
        self.x.mul(o.x).add(self.y.mul(o.y)).add(self.z.mul(o.z)).add(self.w.mul(o.w))
    }
}

impl Mat4 {
    /// The identity matrix.
    pub fn identity() -> (r: Mat4)
        ensures
            r@ == mat_identity(),
    {
        let o = Fx::one();
        let z = Fx::zero();
        Mat4 {
            r0: Vec4 { x: o, y: z, z: z, w: z },
            r1: Vec4 { x: z, y: o, z: z, w: z },
            r2: Vec4 { x: z, y: z, z: o, w: z },
            r3: Vec4 { x: z, y: z, z: z, w: o },
        }
    }

    /// The translation matrix with column (x, y, z) in the last column.
    pub fn translation(x: Fx, y: Fx, z: Fx) -> (r: Mat4)
        ensures
            r@ == mat_translation(x@, y@, z@),
    {
        let o = Fx::one();
        let zr = Fx::zero();
        Mat4 {
            r0: Vec4 { x: o, y: zr, z: zr, w: x },
            r1: Vec4 { x: zr, y: o, z: zr, w: y },
            r2: Vec4 { x: zr, y: zr, z: o, w: z },
            r3: Vec4 { x: zr, y: zr, z: zr, w: o },
        }
    }

    /// Apply the matrix to a column vector.
    pub fn apply(&self, v: &Vec4) -> (r: Vec4)
        ensures
            r@ == mat_vec_mul(self@, v@),
    {
        Vec4 {
            x: self.r0.dot(v),
            y: self.r1.dot(v),
            z: self.r2.dot(v),
            w: self.r3.dot(v),
        }
    }

    /// Row-by-column product with another matrix.
    pub fn mul(&self, o: &Mat4) -> (r: Mat4)
        ensures
            r@ == mat_mul(self@, o@),
    {
        let c0 = Vec4 { x: o.r0.x, y: o.r1.x, z: o.r2.x, w: o.r3.x };
        let c1 = Vec4 { x: o.r0.y, y: o.r1.y, z: o.r2.y, w: o.r3.y };
        let c2 = Vec4 { x: o.r0.z, y: o.r1.z, z: o.r2.z, w: o.r3.z };
        let c3 = Vec4 { x: o.r0.w, y: o.r1.w, z: o.r2.w, w: o.r3.w };
        Mat4 {
            r0: Vec4 {
                x: self.r0.dot(&c0),
                y: self.r0.dot(&c1),
                z: self.r0.dot(&c2),
                w: self.r0.dot(&c3),
            },
            r1: Vec4 {
                x: self.r1.dot(&c0),
                y: self.r1.dot(&c1),
                z: self.r1.dot(&c2),
                w: self.r1.dot(&c3),
            },
            r2: Vec4 {
                x: self.r2.dot(&c0),
                y: self.r2.dot(&c1),
                z: self.r2.dot(&c2),
                w: self.r2.dot(&c3),
            },
            r3: Vec4 {
                x: self.r3.dot(&c0),
                y: self.r3.dot(&c1),
                z: self.r3.dot(&c2),
                w: self.r3.dot(&c3),
            },
        }
    }
}

} // verus!
