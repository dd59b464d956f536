//! The per-scene uniform record.

use vstd::prelude::*;

use crate::rendering::light::Light;
use crate::rendering::light::MAX_LIGHTS;
use crate::types::Mat4;
use crate::types::Vec4;

verus! {

/// The shared data of a scene, rebuilt each rendered frame: one
/// view-projection matrix and camera position per eye, and the fixed-size
/// light table.  Unused light slots are explicitly inactive, never left
/// uninitialised.
pub struct SceneData {
    /// View-projection matrix of the left eye.
    pub view_projection_left: Mat4,
    /// View-projection matrix of the right eye.
    pub view_projection_right: Mat4,
    /// World-space camera position of the left eye.
    pub camera_position_left: Vec4,
    /// World-space camera position of the right eye.
    pub camera_position_right: Vec4,
    /// The scene's light table; always exactly `MAX_LIGHTS` entries.
    pub lights: Vec<Light>,
}

impl SceneData {
    /// The light table holds exactly its fixed number of slots.
    pub open spec fn wf(self) -> bool {
        self.lights@.len() == MAX_LIGHTS
    }

    /// Create the scene data a frame starts from: identity view-projection
    /// and zero camera position for both eyes, and every light slot
    /// inactive.
    pub fn new() -> (scene_data: SceneData)
        ensures
            scene_data.wf(),
            scene_data.view_projection_left == Mat4::spec_identity(),
            scene_data.view_projection_right == Mat4::spec_identity(),
            scene_data.camera_position_left == Vec4::spec_zero(),
            scene_data.camera_position_right == Vec4::spec_zero(),
            forall|i: int|
                0 <= i < scene_data.lights@.len() ==> scene_data.lights@[i] == Light::spec_none(),
    {
        let mut lights: Vec<Light> = Vec::new();
        let mut i: usize = 0;
        while i < MAX_LIGHTS
            invariant
                i <= MAX_LIGHTS,
                lights@.len() == i,
                forall|j: int| 0 <= j < i ==> lights@[j] == Light::spec_none(),
            decreases MAX_LIGHTS - i,
        {
            lights.push(Light::none());
            i = i + 1;
        }
        SceneData {
            view_projection_left: Mat4::identity(),
            view_projection_right: Mat4::identity(),
            camera_position_left: Vec4::zero(),
            camera_position_right: Vec4::zero(),
            lights,
        }
    }
}

} // verus!
