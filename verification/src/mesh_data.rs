//! The vertex container a transform node may own.

use vstd::prelude::*;
use crate::mat::{Vec4, Vec4V};

verus! {

/// An ordered sequence of homogeneous vertex positions, in source order.
/// Immutable after construction; owned by exactly one transform node.
#[derive(Clone)]
pub struct MeshData {
    pub verts: Vec<Vec4>,
}

impl View for MeshData {
    type V = Seq<Vec4V>;

    open spec fn view(&self) -> Seq<Vec4V> {
        self.verts@.map_values(|v: Vec4| v@)
    }
}

} // verus!
