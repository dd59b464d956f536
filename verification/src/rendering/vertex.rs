//! The per-vertex record of the vertex buffer.

use vstd::prelude::*;

use crate::types::Vec2;
use crate::types::Vec3;
use crate::types::Vec4;

verus! {

/// One vertex as the vertex shader consumes it.  Scalar fields are raw
/// single-precision bit patterns; see `crate::types`.
#[derive(Clone, Copy, Debug, PartialEq, Eq, Structural)]
pub struct Vertex {
    /// Model-space position.
    pub position: Vec3,
    /// Model-space normal.
    pub normal: Vec3,
    /// Texture coordinates.
    pub texture_coords: Vec2,
    /// The four skinning joints that drive this vertex.
    pub joint_indices: Vec4,
    /// The weight of each skinning joint.
    pub joint_weights: Vec4,
}

} // verus!
