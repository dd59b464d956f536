//! GPU-visible data and the bookkeeping that fills it each frame.

pub mod buffer;
pub mod image;
pub mod light;
pub mod material;
pub mod mesh_data;
pub mod resources;
pub mod scene_data;
pub mod vertex;
