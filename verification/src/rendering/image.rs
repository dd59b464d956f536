//! The shape of a texture image, as far as texture allocation reads it.
//!
//! The pixel data and the device handles of an image stay with the graphics
//! device; allocation only needs to know which sampler the image wants,
//! which is decided by its format and layer count.

use vstd::prelude::*;

verus! {

/// The Vulkan numeric code of the two-channel half-float format
/// (`R16G16_SFLOAT`), used by pre-convolved lookup textures that want the
/// clamping sampler.
pub const FORMAT_R16G16_SFLOAT: u32 = 83;

/// The layer count of a cube map: one layer per face.
pub const CUBEMAP_LAYER_COUNT: u32 = 6;

/// What texture allocation reads of an image: its format code (a Vulkan
/// numeric format value) and its layer count.
#[derive(Clone, Copy, Debug, PartialEq, Eq, Structural)]
pub struct Image {
    pub format: u32,
    pub layer_count: u32,
}

/// Which of the two shared samplers a texture is bound with.
#[derive(Clone, Copy, Debug, PartialEq, Eq, Structural)]
pub enum SamplerKind {
    /// The repeating sampler; the right choice for most textures.
    Repeat,
    /// The clamp-to-edge sampler, for cube maps and pre-convolved lookup
    /// textures.
    ClampToEdge,
}

/// The sampler an image is bound with: clamp-to-edge exactly for cube maps
/// and for two-channel half-float lookup textures, repeat for everything
/// else.
pub open spec fn spec_sampler_for(image: Image) -> SamplerKind {
    if image.format == FORMAT_R16G16_SFLOAT || image.layer_count == CUBEMAP_LAYER_COUNT {
        SamplerKind::ClampToEdge
    } else {
        SamplerKind::Repeat
    }
}

/// Pick the sampler for an image.
pub fn sampler_for_image(image: &Image) -> (sampler: SamplerKind)
    ensures
        sampler == spec_sampler_for(*image),
{
    if image.format == FORMAT_R16G16_SFLOAT || image.layer_count == CUBEMAP_LAYER_COUNT {
        SamplerKind::ClampToEdge
    } else {
        SamplerKind::Repeat
    }
}

} // verus!
