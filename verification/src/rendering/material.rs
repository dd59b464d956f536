//! The per-material record of the materials buffer.

use vstd::prelude::*;

use crate::types::Vec4;
use crate::types::ONE_BITS;

verus! {

/// Material id naming the reserved default material: slot 0 of the
/// materials buffer, seeded at startup and kept across frame resets.
pub const NO_MATERIAL: u32 = 0;

/// Texture id marking a texture slot a material does not use.
pub const NO_TEXTURE: u32 = u32::MAX;

/// One material as the fragment shader consumes it, following the
/// metallic-roughness model.  Scalar fields are raw single-precision bit
/// patterns; texture ids index the bound texture table.
#[derive(Clone, Copy, Debug, PartialEq, Eq, Structural)]
pub struct Material {
    /// Linear-space multiplier of the base colour.
    pub base_color_factor: Vec4,
    /// How metallic the surface is, from zero to one.
    pub metallic_factor: u32,
    /// How rough the surface is, from zero to one.
    pub roughness_factor: u32,
    /// The base colour texture, or `NO_TEXTURE`.
    pub base_color_texture_id: u32,
}

impl Material {
    /// The default material: plain white, fully metallic and fully rough —
    /// the factor defaults of glTF — with no texture bound.
    pub open spec fn spec_default() -> Material {
        Material {
            base_color_factor: Vec4::spec_one(),
            metallic_factor: ONE_BITS,
            roughness_factor: ONE_BITS,
            base_color_texture_id: NO_TEXTURE,
        }
    }
}

impl Default for Material {
    /// Build the default material; it fills the reserved slot
    /// `NO_MATERIAL` of the materials buffer.
    fn default() -> (material: Material)
        ensures
            material == Material::spec_default(),
    {
        Material {
            base_color_factor: Vec4::one(),
            metallic_factor: ONE_BITS,
            roughness_factor: ONE_BITS,
            base_color_texture_id: NO_TEXTURE,
        }
    }
}

} // verus!
