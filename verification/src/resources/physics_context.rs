//! The slice of the physics simulation the renderer reads.
//!
//! Of each simulated rigid body only its pose matters here: the translation
//! and the unit rotation that the transform-sync pass copies into the
//! renderable transform once per tick.  The embedding re-normalises the
//! simulation's quaternion when it fills a pose in, so `rotation` always
//! carries a unit quaternion.

use vstd::prelude::*;

use crate::types::Quat;
use crate::types::Vec3;

verus! {

/// The pose of one simulated rigid body: a translation and a unit rotation,
/// as raw single-precision bit patterns.
#[derive(Clone, Copy, Debug, PartialEq, Eq, Structural)]
pub struct Isometry {
    pub translation: Vec3,
    pub rotation: Quat,
}

/// The authoritative poses of the simulated rigid bodies, indexed by the
/// handle stored in a `RigidBody` component.
pub struct PhysicsContext {
    pub rigid_bodies: Vec<Isometry>,
}

impl Default for PhysicsContext {
    /// A simulation with no bodies.
    fn default() -> (context: PhysicsContext)
        ensures
            context.rigid_bodies@ == Seq::<Isometry>::empty(),
    {
        PhysicsContext { rigid_bodies: Vec::new() }
    }
}

} // verus!
