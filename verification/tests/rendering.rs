use hotham::rendering::image::sampler_for_image;
use hotham::rendering::vertex::Vertex;
use hotham::types::Vec2;
use hotham::rendering::image::Image;
use hotham::rendering::image::SamplerKind;
use hotham::rendering::image::CUBEMAP_LAYER_COUNT;
use hotham::rendering::image::FORMAT_R16G16_SFLOAT;
use hotham::rendering::light::Light;
use hotham::rendering::light::PunctualKind;
use hotham::rendering::light::LIGHT_TYPE_DIRECTIONAL;
use hotham::rendering::light::LIGHT_TYPE_NONE;
use hotham::rendering::light::LIGHT_TYPE_POINT;
use hotham::rendering::light::LIGHT_TYPE_SPOT;
use hotham::rendering::light::MAX_LIGHTS;
use hotham::rendering::material::Material;
use hotham::rendering::mesh_data::MeshData;
use hotham::rendering::resources::Resources;
use hotham::rendering::resources::DrawData;
use hotham::rendering::resources::DRAW_DATA_BUFFER_SIZE;
use hotham::rendering::scene_data::SceneData;
use hotham::types::Mat4;
use hotham::types::Vec3;
use hotham::types::Vec4;
use hotham::HothamError;

fn sample_draw_data(material_id: u32) -> DrawData {
    DrawData {
        transform: Mat4::identity(),
        inverse_transpose: Mat4::identity(),
        bounding_sphere: Vec4 {
            x: 0,
            y: 0,
            z: 0,
            w: 1.0f32.to_bits(),
        },
        material_id,
        skin_id: u32::MAX,
    }
}

fn sample_mesh_data(material_id: u32) -> MeshData {
    MeshData {
        transform: Mat4::identity(),
        inverse_transpose: Mat4::identity(),
        bounding_sphere: Vec4::zero(),
        material_id,
        skin_id: u32::MAX,
    }
}

#[test]
fn test_new_resources_reserve_default_material() {
    let resources = Resources::new();
    assert_eq!(resources.materials_buffer.len(), 1);
    assert_eq!(*resources.materials_buffer.get(0), Material::default());
    assert_eq!(resources.draw_data_buffer.len(), 0);
    assert_eq!(resources.vertex_buffer.len(), 0);
    assert_eq!(resources.texture_count(), 0);
    assert_eq!(resources.mesh_data.len(), 0);
}

#[test]
fn test_draw_data_slots_are_sequential() {
    let mut resources = Resources::new();
    resources.reset_for_frame();
    for expected in 0..DRAW_DATA_BUFFER_SIZE {
        let slot = resources.push_draw_data(sample_draw_data(0));
        assert_eq!(slot, Ok(expected));
    }
    // One past the provisioned capacity is refused, distinctly.
    let overflow = resources.push_draw_data(sample_draw_data(0));
    assert_eq!(overflow, Err(HothamError::CapacityExceeded));
}

#[test]
fn test_reset_rewinds_per_frame_buffers() {
    let mut resources = Resources::new();
    let slot = resources.push_draw_data(sample_draw_data(3));
    assert_eq!(slot, Ok(0));

    resources.reset_for_frame();
    assert_eq!(resources.draw_data_buffer.len(), 0);
    // The reserved default material survives every reset.
    assert_eq!(resources.materials_buffer.len(), 1);
    assert_eq!(*resources.materials_buffer.get(0), Material::default());

    let slot = resources.push_draw_data(sample_draw_data(3));
    assert_eq!(slot, Ok(0));
}

#[test]
fn test_handles_survive_a_thousand_resets() {
    let mut resources = Resources::new();

    let mesh = sample_mesh_data(7);
    let handle = resources.allocate_mesh(mesh);
    let image = Image { format: 0, layer_count: 1 };
    let (texture_index, _) = resources.allocate_texture(&image);
    assert_eq!(texture_index, 0);

    for _ in 0..1000 {
        resources.reset_for_frame();
    }

    assert_eq!(*resources.mesh_data.get(handle), mesh);
    assert_eq!(resources.texture_count(), 1);
}

#[test]
fn test_mesh_handles_are_stable_and_distinct() {
    let mut resources = Resources::new();
    let first = resources.allocate_mesh(sample_mesh_data(1));
    let second = resources.allocate_mesh(sample_mesh_data(2));
    assert_ne!(first, second);
    assert_eq!(first.index, 0);
    assert_eq!(second.index, 1);
    assert_eq!(resources.mesh_data.get(first).material_id, 1);
    assert_eq!(resources.mesh_data.get(second).material_id, 2);
}

#[test]
fn test_mesh_data_builds_matching_draw_data() {
    let mesh = sample_mesh_data(5);
    let draw_data = mesh.draw_data();
    assert_eq!(draw_data.transform, mesh.transform);
    assert_eq!(draw_data.inverse_transpose, mesh.inverse_transpose);
    assert_eq!(draw_data.bounding_sphere, mesh.bounding_sphere);
    assert_eq!(draw_data.material_id, 5);
    assert_eq!(draw_data.skin_id, mesh.skin_id);
}

#[test]
fn test_texture_indices_are_assigned_in_order() {
    let mut resources = Resources::new();
    let plain = Image { format: 37, layer_count: 1 };
    let cube = Image { format: 37, layer_count: CUBEMAP_LAYER_COUNT };
    let lookup = Image { format: FORMAT_R16G16_SFLOAT, layer_count: 1 };

    let (first, first_sampler) = resources.allocate_texture(&plain);
    let (second, second_sampler) = resources.allocate_texture(&cube);
    let (third, third_sampler) = resources.allocate_texture(&lookup);

    assert_eq!((first, second, third), (0, 1, 2));
    assert_eq!(first_sampler, SamplerKind::Repeat);
    assert_eq!(second_sampler, SamplerKind::ClampToEdge);
    assert_eq!(third_sampler, SamplerKind::ClampToEdge);
    assert_eq!(resources.texture_count(), 3);
}

#[test]
fn test_sampler_choice() {
    assert_eq!(
        sampler_for_image(&Image { format: 0, layer_count: 1 }),
        SamplerKind::Repeat
    );
    assert_eq!(
        sampler_for_image(&Image { format: FORMAT_R16G16_SFLOAT, layer_count: 1 }),
        SamplerKind::ClampToEdge
    );
    assert_eq!(
        sampler_for_image(&Image { format: 0, layer_count: CUBEMAP_LAYER_COUNT }),
        SamplerKind::ClampToEdge
    );
}

#[test]
fn test_none_light_is_inactive_and_blank() {
    let light = Light::none();
    assert_eq!(light.light_type, LIGHT_TYPE_NONE);
    assert_eq!(light.light_type, u32::MAX);
    // Nothing downstream reads the other fields; they are still left in a
    // defined, all-zero state.
    assert_eq!(light.direction, Vec3 { x: 0, y: 0, z: 0 });
    assert_eq!(light.position, Vec3 { x: 0, y: 0, z: 0 });
    assert_eq!(light.color, Vec3 { x: 0, y: 0, z: 0 });
    assert_eq!(light.range, 0);
    assert_eq!(light.intensity, 0);
    assert_eq!(light.inner_cone_cos, 0);
    assert_eq!(light.outer_cone_cos, 0);
}

#[test]
fn test_spotlight_zero_inner_angle_has_cosine_one() {
    // The authored cone angles are folded to cosines before construction;
    // an inner cone angle of zero folds to a cosine of exactly one.
    let direction = Vec3 { x: 0, y: 0, z: 1.0f32.to_bits() };
    let color = Vec3 {
        x: 1.0f32.to_bits(),
        y: 1.0f32.to_bits(),
        z: 1.0f32.to_bits(),
    };
    let position = Vec3::zero();
    let inner_cone_angle = 0.0f32;
    let outer_cone_angle = 0.75f32;

    let light = Light::new_spotlight(
        direction,
        (-1.0f32).to_bits(),
        10.0f32.to_bits(),
        color,
        position,
        inner_cone_angle.cos().to_bits(),
        outer_cone_angle.cos().to_bits(),
    );

    assert_eq!(light.light_type, LIGHT_TYPE_SPOT);
    assert_eq!(light.inner_cone_cos, 1.0f32.to_bits());
    assert_eq!(light.outer_cone_cos, 0.75f32.cos().to_bits());
    assert_eq!(light.direction, direction);
}

#[test]
fn test_directional_and_point_lights() {
    let direction = Vec3 { x: 0, y: (-1.0f32).to_bits(), z: 0 };
    let color = Vec3 {
        x: 1.0f32.to_bits(),
        y: 0,
        z: 0,
    };
    let directional = Light::new_directional(direction, 5.0f32.to_bits(), color);
    assert_eq!(directional.light_type, LIGHT_TYPE_DIRECTIONAL);
    assert_eq!(directional.direction, direction);
    assert_eq!(directional.intensity, 5.0f32.to_bits());
    assert_eq!(directional.color, color);
    assert_eq!(directional.position, Vec3 { x: 0, y: 0, z: 0 });
    assert_eq!(directional.range, 0);

    let position = Vec3 { x: 1.0f32.to_bits(), y: 2.0f32.to_bits(), z: 3.0f32.to_bits() };
    let point = Light::new_point(position, 4.0f32.to_bits(), 6.0f32.to_bits(), color);
    assert_eq!(point.light_type, LIGHT_TYPE_POINT);
    assert_eq!(point.position, position);
    assert_eq!(point.range, 4.0f32.to_bits());
    assert_eq!(point.direction, Vec3 { x: 0, y: 0, z: 0 });
}

#[test]
fn test_from_punctual_dispatches_by_kind() {
    let direction = Vec3 { x: 0, y: 0, z: 1.0f32.to_bits() };
    let color = Vec3::one();
    let position = Vec3 { x: 1.0f32.to_bits(), y: 0, z: 0 };
    let range = (-1.0f32).to_bits();
    let intensity = 2.0f32.to_bits();

    let directional = Light::from_punctual(
        PunctualKind::Directional,
        direction,
        range,
        intensity,
        color,
        position,
    );
    assert_eq!(
        directional,
        Light::new_directional(direction, intensity, color)
    );

    let point = Light::from_punctual(
        PunctualKind::Point,
        direction,
        range,
        intensity,
        color,
        position,
    );
    assert_eq!(point, Light::new_point(position, range, intensity, color));

    let kind = PunctualKind::Spot {
        inner_cone_cos: 0.1f32.cos().to_bits(),
        outer_cone_cos: 0.2f32.cos().to_bits(),
    };
    let spot = Light::from_punctual(kind, direction, range, intensity, color, position);
    assert_eq!(
        spot,
        Light::new_spotlight(
            direction,
            range,
            intensity,
            color,
            position,
            0.1f32.cos().to_bits(),
            0.2f32.cos().to_bits(),
        )
    );
}

#[test]
fn test_scene_data_starts_with_inactive_lights() {
    let scene_data = SceneData::new();
    assert_eq!(scene_data.lights.len(), MAX_LIGHTS);
    for light in &scene_data.lights {
        assert_eq!(light.light_type, LIGHT_TYPE_NONE);
    }
    assert_eq!(scene_data.view_projection_left, Mat4::identity());
    assert_eq!(scene_data.view_projection_right, Mat4::identity());
}

#[test]
fn test_vertex_and_index_buffers_append_and_rewind() {
    let mut resources = Resources::new();
    let vertex = Vertex {
        position: Vec3 { x: 1.0f32.to_bits(), y: 0, z: 0 },
        normal: Vec3 { x: 0, y: 1.0f32.to_bits(), z: 0 },
        texture_coords: Vec2 { x: 0, y: 0 },
        joint_indices: Vec4::zero(),
        joint_weights: Vec4::zero(),
    };
    assert_eq!(resources.vertex_buffer.push(vertex), Ok(0));
    assert_eq!(resources.vertex_buffer.push(vertex), Ok(1));
    assert_eq!(resources.index_buffer.push(0), Ok(0));
    assert_eq!(resources.index_buffer.push(1), Ok(1));
    assert_eq!(*resources.vertex_buffer.get(1), vertex);
    assert_eq!(*resources.index_buffer.get(1), 1);

    resources.reset_for_frame();
    assert_eq!(resources.vertex_buffer.len(), 0);
    assert_eq!(resources.index_buffer.len(), 0);
}
