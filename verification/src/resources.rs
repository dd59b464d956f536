//! The per-subsystem state the engine owns and updates each tick.

pub mod haptic_context;
pub mod physics_context;
