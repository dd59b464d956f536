//! The transform-sync pass.
//!
//! Once per tick, after the physics step and before draw data is built, the
//! pose of every entity that holds both a rigid-body handle and a renderable
//! transform is copied from the simulation into the transform.  The copy is
//! idempotent for a fixed simulation state, so running it again within a
//! tick is wasted work but not wrong.

use vstd::prelude::*;

use crate::components::RigidBody;
use crate::components::Transform;
use crate::resources::physics_context::PhysicsContext;

verus! {

/// Copy the simulated pose of one entity into its renderable transform: the
/// translation and the (unit) rotation of the body named by `rigid_body`
/// replace the transform's, and the scale stays as it was.
///
/// The result depends only on the simulation state, never on the previous
/// transform, which is what makes the pass idempotent within a tick.
pub fn update_rigid_body_transforms(
    rigid_body: &RigidBody,
    transform: &mut Transform,
    physics_context: &PhysicsContext,
)
    requires
        rigid_body.handle < physics_context.rigid_bodies@.len(),
    ensures
        final(transform).translation == physics_context.rigid_bodies@[rigid_body.handle as int].translation,
        final(transform).rotation == physics_context.rigid_bodies@[rigid_body.handle as int].rotation,
        final(transform).scale == old(transform).scale,
{
    let body = &physics_context.rigid_bodies[rigid_body.handle];

    transform.translation.x = body.translation.x;
    transform.translation.y = body.translation.y;
    transform.translation.z = body.translation.z;

    transform.rotation = body.rotation;
}

} // verus!
