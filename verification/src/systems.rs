//! The per-tick passes that run over the entity components.

pub mod update_rigid_body_transforms;
