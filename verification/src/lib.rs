//! Frame-lifecycle and GPU-resource bookkeeping for a real-time XR renderer.
//!
//! The crate tracks the runtime session state of an XR device, drives the
//! begin/end-frame protocol, and manages the per-frame GPU buffer arena
//! together with the stable mesh arena and the bound texture table.  Scalar
//! fields that the GPU consumes as IEEE 754 values are carried as raw 32-bit
//! patterns, so every record stays bit-exact and every rule about it can be
//! stated and proved over plain integers.

use vstd::prelude::*;

pub mod components;
pub mod engine;
pub mod rendering;
pub mod resources;
pub mod systems;
pub mod types;

verus! {

/// The error taxonomy of the engine.
///
/// Shutdown is deliberately a value of its own: a controlled termination must
/// never share a code path with a true failure.
#[derive(Clone, Copy, Debug, PartialEq, Eq, Structural)]
pub enum HothamError {
    /// The device, runtime or session could not be created; unrecoverable.
    InitialisationFailed,
    /// The runtime reached its terminal state or an external quit signal was
    /// raised; the tick loop should wind down cleanly.
    ShuttingDown,
    /// A per-frame buffer was asked to hold more than it was provisioned for
    /// at startup; retrying the same frame cannot help.
    CapacityExceeded,
    /// A transient per-tick failure; the dependent step is skipped for this
    /// tick only and the loop continues.
    TickFailed,
}

/// Result type used throughout the engine.
pub type HothamResult<T> = Result<T, HothamError>;

} // verus!
