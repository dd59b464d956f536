//! The entity components the engine reads and writes each tick.

use vstd::prelude::*;

use crate::types::Quat;
use crate::types::Vec3;

verus! {

/// Which hand a device or effect belongs to.
#[derive(Clone, Copy, Debug, PartialEq, Eq, Structural)]
pub enum Handedness {
    Left,
    Right,
}

/// Marks an entity as driven by the physics simulation; `handle` names its
/// body in `PhysicsContext::rigid_bodies`.
#[derive(Clone, Copy, Debug, PartialEq, Eq, Structural)]
pub struct RigidBody {
    pub handle: usize,
}

/// The renderable pose of an entity.
///
/// Scalar components are raw single-precision bit patterns; see
/// `crate::types`.  `rotation` always carries a unit quaternion.
#[derive(Clone, Copy, Debug, PartialEq, Eq, Structural)]
pub struct Transform {
    pub translation: Vec3,
    pub rotation: Quat,
    pub scale: Vec3,
}

impl Default for Transform {
    /// The pose at the origin: zero translation, identity rotation, unit
    /// scale.
    fn default() -> (transform: Transform)
        ensures
            transform == (Transform {
                translation: Vec3::spec_zero(),
                rotation: Quat::spec_identity(),
                scale: Vec3::spec_one(),
            }),
    {
        Transform { translation: Vec3::zero(), rotation: Quat::identity(), scale: Vec3::one() }
    }
}

} // verus!
