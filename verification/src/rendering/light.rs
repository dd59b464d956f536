//! Punctual light descriptors with a fixed GPU layout.
//!
//! A light follows the punctual-lights model of glTF: directional, point or
//! spot, plus an explicit "none" used to mark the unused slots of a scene's
//! fixed light table.  Cone angles are folded to cosines before a spot light
//! is constructed — the shading stage only ever sees cosines — and that
//! single-precision fold is done by the embedding, which hands the resulting
//! bit patterns in.

use vstd::prelude::*;

use crate::types::Vec3;

verus! {

/// Descriptor tag for a directional light.
pub const LIGHT_TYPE_DIRECTIONAL: u32 = 0;

/// Descriptor tag for a point light.
pub const LIGHT_TYPE_POINT: u32 = 1;

/// Descriptor tag for a spot light.
pub const LIGHT_TYPE_SPOT: u32 = 2;

/// Sentinel tag for an inactive light slot.  The shading stage reads nothing
/// else of a light carrying it.
pub const LIGHT_TYPE_NONE: u32 = u32::MAX;

/// The most lights a scene holds at once; unused slots are explicitly marked
/// with `LIGHT_TYPE_NONE` rather than left uninitialised.
pub const MAX_LIGHTS: usize = 4;

/// A punctual light as the shading stage consumes it.
///
/// Scalar fields hold raw single-precision bit patterns; see `crate::types`.
/// `range` carries the pattern of -1 for an infinite range.
#[derive(Clone, Copy, Debug, PartialEq, Eq, Structural)]
pub struct Light {
    /// The direction the light is facing.
    pub direction: Vec3,
    /// The range of the light; -1 indicates infinite range.
    pub range: u32,
    /// Linear-space RGB colour of the light.
    pub color: Vec3,
    /// Brightness in the type-specific unit: candela for point and spot
    /// lights, lux for directional lights.
    pub intensity: u32,
    /// The position of the light.
    pub position: Vec3,
    /// Cosine of the angle from the spot centre where falloff begins.
    pub inner_cone_cos: u32,
    /// Cosine of the angle from the spot centre where falloff ends.
    pub outer_cone_cos: u32,
    /// One of the `LIGHT_TYPE_` tags.
    pub light_type: u32,
}

/// The shape-specific part of an authored punctual light: which kind it is,
/// and for a spot light the two cone cosines.
#[derive(Clone, Copy, Debug, PartialEq, Eq, Structural)]
pub enum PunctualKind {
    /// A light infinitely far away, lighting along one direction.
    Directional,
    /// A light radiating from a position in every direction.
    Point,
    /// A cone of light with an inner full-strength angle and an outer
    /// falloff angle, both already folded to cosines.
    Spot { inner_cone_cos: u32, outer_cone_cos: u32 },
}

impl Light {
    /// The light with every field zero and the inactive tag.
    pub open spec fn spec_none() -> Light {
        Light {
            direction: Vec3::spec_zero(),
            range: 0,
            color: Vec3::spec_zero(),
            intensity: 0,
            position: Vec3::spec_zero(),
            inner_cone_cos: 0,
            outer_cone_cos: 0,
            light_type: LIGHT_TYPE_NONE,
        }
    }

    /// The spot light built from the given fields.
    pub open spec fn spec_spotlight(
        direction: Vec3,
        range: u32,
        intensity: u32,
        color: Vec3,
        position: Vec3,
        inner_cone_cos: u32,
        outer_cone_cos: u32,
    ) -> Light {
        Light {
            direction,
            range,
            color,
            intensity,
            position,
            inner_cone_cos,
            outer_cone_cos,
            light_type: LIGHT_TYPE_SPOT,
        }
    }

    /// The directional light built from the given fields; the fields a
    /// directional light does not use stay zero.
    pub open spec fn spec_directional(direction: Vec3, intensity: u32, color: Vec3) -> Light {
        Light {
            direction,
            range: 0,
            color,
            intensity,
            position: Vec3::spec_zero(),
            inner_cone_cos: 0,
            outer_cone_cos: 0,
            light_type: LIGHT_TYPE_DIRECTIONAL,
        }
    }

    /// The point light built from the given fields; the fields a point light
    /// does not use stay zero.
    pub open spec fn spec_point(position: Vec3, range: u32, intensity: u32, color: Vec3) -> Light {
        Light {
            direction: Vec3::spec_zero(),
            range,
            color,
            intensity,
            position,
            inner_cone_cos: 0,
            outer_cone_cos: 0,
            light_type: LIGHT_TYPE_POINT,
        }
    }

    /// Create an inactive light: it marks an unused slot, and the shading
    /// stage reads none of its other fields.
    pub fn none() -> (light: Light)
        ensures
            light == Light::spec_none(),
            light.light_type == LIGHT_TYPE_NONE,
    {
        Light {
            direction: Vec3::zero(),
            range: 0,
            color: Vec3::zero(),
            intensity: 0,
            position: Vec3::zero(),
            inner_cone_cos: 0,
            outer_cone_cos: 0,
            light_type: LIGHT_TYPE_NONE,
        }
    }

    /// Create a spot light.  The cone cosines come in already folded from
    /// the authored angles.
    pub fn new_spotlight(
        direction: Vec3,
        range: u32,
        intensity: u32,
        color: Vec3,
        position: Vec3,
        inner_cone_cos: u32,
        outer_cone_cos: u32,
    ) -> (light: Light)
        ensures
            light == Light::spec_spotlight(
                direction,
                range,
                intensity,
                color,
                position,
                inner_cone_cos,
                outer_cone_cos,
            ),
    {
        Light {
            direction,
            range,
            color,
            intensity,
            position,
            inner_cone_cos,
            outer_cone_cos,
            light_type: LIGHT_TYPE_SPOT,
        }
    }

    /// Create a directional light.
    pub fn new_directional(direction: Vec3, intensity: u32, color: Vec3) -> (light: Light)
        ensures
            light == Light::spec_directional(direction, intensity, color),
    {
        Light {
            direction,
            range: 0,
            color,
            intensity,
            position: Vec3::zero(),
            inner_cone_cos: 0,
            outer_cone_cos: 0,
            light_type: LIGHT_TYPE_DIRECTIONAL,
        }
    }

    /// Create a point light.
    pub fn new_point(position: Vec3, range: u32, intensity: u32, color: Vec3) -> (light: Light)
        ensures
            light == Light::spec_point(position, range, intensity, color),
    {
        Light {
            direction: Vec3::zero(),
            range,
            color,
            intensity,
            position,
            inner_cone_cos: 0,
            outer_cone_cos: 0,
            light_type: LIGHT_TYPE_POINT,
        }
    }

    /// Build the light for an authored punctual light: the kind picks the
    /// constructor, exactly as the three `new_` functions would be called by
    /// hand on the same fields.
    pub fn from_punctual(
        kind: PunctualKind,
        direction: Vec3,
        range: u32,
        intensity: u32,
        color: Vec3,
        position: Vec3,
    ) -> (light: Light)
        ensures
            light == (match kind {
                PunctualKind::Directional => Light::spec_directional(direction, intensity, color),
                PunctualKind::Point => Light::spec_point(position, range, intensity, color),
                PunctualKind::Spot { inner_cone_cos, outer_cone_cos } => Light::spec_spotlight(
                    direction,
                    range,
                    intensity,
                    color,
                    position,
                    inner_cone_cos,
                    outer_cone_cos,
                ),
            }),
    {
        match kind {
            PunctualKind::Directional => Light::new_directional(direction, intensity, color),
            PunctualKind::Point => Light::new_point(position, range, intensity, color),
            PunctualKind::Spot { inner_cone_cos, outer_cone_cos } => Light::new_spotlight(
                direction,
                range,
                intensity,
                color,
                position,
                inner_cone_cos,
                outer_cone_cos,
            ),
        }
    }
}

impl Default for Light {
    /// The all-zero light; its tag is `LIGHT_TYPE_DIRECTIONAL`, so authored
    /// lights always set the tag explicitly.
    fn default() -> (light: Light)
        ensures
            light == (Light {
                direction: Vec3::spec_zero(),
                range: 0,
                color: Vec3::spec_zero(),
                intensity: 0,
                position: Vec3::spec_zero(),
                inner_cone_cos: 0,
                outer_cone_cos: 0,
                light_type: LIGHT_TYPE_DIRECTIONAL,
            }),
    {
        Light {
            direction: Vec3::zero(),
            range: 0,
            color: Vec3::zero(),
            intensity: 0,
            position: Vec3::zero(),
            inner_cone_cos: 0,
            outer_cone_cos: 0,
            light_type: LIGHT_TYPE_DIRECTIONAL,
        }
    }
}

} // verus!
