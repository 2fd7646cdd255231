//! A minimal 3D transform-and-projection pipeline: homogeneous transform
//! composition over an exact fixed-point scalar, a scene of point meshes,
//! a perspective projection, and a per-vertex point rasterizer writing a
//! flat RGBA framebuffer.

pub mod fx;
pub mod mat;
pub mod trig;
pub mod mesh_data;
pub mod transform;
pub mod scene;
pub mod obj_reader;
pub mod lemmas;
