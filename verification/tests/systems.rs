use hotham::components::RigidBody;
use hotham::components::Transform;
use hotham::resources::physics_context::Isometry;
use hotham::resources::physics_context::PhysicsContext;
use hotham::systems::update_rigid_body_transforms::update_rigid_body_transforms;
use hotham::types::Quat;
use hotham::types::Vec3;

use nalgebra::Quaternion;
use nalgebra::UnitQuaternion;

fn quat_bits(q: &Quaternion<f32>) -> Quat {
    Quat {
        x: q.coords.x.to_bits(),
        y: q.coords.y.to_bits(),
        z: q.coords.z.to_bits(),
        w: q.coords.w.to_bits(),
    }
}

#[test]
pub fn test_update_rigid_body_transforms_system() {
    let mut physics_context = PhysicsContext::default();

    // A simulated body at (1, 2, 3), rotated by the given Euler angles; the
    // embedding re-normalises the simulation's quaternion when it fills a
    // pose in.
    let rotation = UnitQuaternion::from_euler_angles(0.1f32, 0.2f32, 0.3f32);
    let normalized = UnitQuaternion::new_normalize(*rotation.quaternion());
    let pose = Isometry {
        translation: Vec3 {
            x: 1.0f32.to_bits(),
            y: 2.0f32.to_bits(),
            z: 3.0f32.to_bits(),
        },
        rotation: quat_bits(normalized.quaternion()),
    };
    physics_context.rigid_bodies.push(pose);

    let rigid_body = RigidBody { handle: 0 };
    let mut transform = Transform::default();

    // Four consecutive ticks with no simulation change.
    for _ in 0..4 {
        update_rigid_body_transforms(&rigid_body, &mut transform, &physics_context);
    }

    assert_eq!(
        transform.translation,
        Vec3 {
            x: 1.0f32.to_bits(),
            y: 2.0f32.to_bits(),
            z: 3.0f32.to_bits(),
        }
    );
    assert_eq!(transform.rotation, quat_bits(rotation.quaternion()));
}

#[test]
fn test_transform_sync_keeps_scale() {
    let mut physics_context = PhysicsContext::default();
    physics_context.rigid_bodies.push(Isometry {
        translation: Vec3 { x: 7, y: 8, z: 9 },
        rotation: Quat { x: 0, y: 0, z: 0, w: 1.0f32.to_bits() },
    });

    let rigid_body = RigidBody { handle: 0 };
    let mut transform = Transform::default();
    let scale_before = transform.scale;

    update_rigid_body_transforms(&rigid_body, &mut transform, &physics_context);

    assert_eq!(transform.translation, Vec3 { x: 7, y: 8, z: 9 });
    assert_eq!(transform.scale, scale_before);
}
