//! Plain-value carriers for the scalar data that GPU-visible records hold.
//!
//! The GPU consumes these records as IEEE 754 single-precision values, but
//! nothing in this crate ever does arithmetic on them: the engine only moves
//! them between buffers.  Each scalar is therefore carried as its raw 32-bit
//! pattern, which keeps every record bit-exact and lets contracts speak of it
//! with ordinary integer equality.  The embedding converts with
//! `f32::to_bits` / `f32::from_bits` at the boundary.

use vstd::prelude::*;

verus! {

/// The bit pattern of the single-precision value one.
pub const ONE_BITS: u32 = 0x3F80_0000;

/// A two-component vector of raw 32-bit scalar patterns.
#[derive(Clone, Copy, Debug, PartialEq, Eq, Structural)]
pub struct Vec2 {
    pub x: u32,
    pub y: u32,
}

/// A three-component vector of raw 32-bit scalar patterns.
#[derive(Clone, Copy, Debug, PartialEq, Eq, Structural)]
pub struct Vec3 {
    pub x: u32,
    pub y: u32,
    pub z: u32,
}

/// A four-component vector of raw 32-bit scalar patterns.
#[derive(Clone, Copy, Debug, PartialEq, Eq, Structural)]
pub struct Vec4 {
    pub x: u32,
    pub y: u32,
    pub z: u32,
    pub w: u32,
}

/// A quaternion of raw 32-bit scalar patterns.
#[derive(Clone, Copy, Debug, PartialEq, Eq, Structural)]
pub struct Quat {
    pub x: u32,
    pub y: u32,
    pub z: u32,
    pub w: u32,
}

/// A column-major four-by-four matrix of raw 32-bit scalar patterns.
#[derive(Clone, Copy, Debug, PartialEq, Eq, Structural)]
pub struct Mat4 {
    pub x_axis: Vec4,
    pub y_axis: Vec4,
    pub z_axis: Vec4,
    pub w_axis: Vec4,
}

impl Vec2 {
    /// The all-zero vector (every component is the pattern of positive zero).
    pub open spec fn spec_zero() -> Vec2 {
        Vec2 { x: 0, y: 0 }
    }

    /// Build the all-zero vector.
    pub fn zero() -> (v: Vec2)
        ensures
            v == Vec2::spec_zero(),
    {
        Vec2 { x: 0, y: 0 }
    }
}

impl Vec3 {
    /// The all-zero vector (every component is the pattern of positive zero).
    pub open spec fn spec_zero() -> Vec3 {
        Vec3 { x: 0, y: 0, z: 0 }
    }

    /// Build the all-zero vector.
    pub fn zero() -> (v: Vec3)
        ensures
            v == Vec3::spec_zero(),
    {
        Vec3 { x: 0, y: 0, z: 0 }
    }

    /// The all-ones vector.
    pub open spec fn spec_one() -> Vec3 {
        Vec3 { x: ONE_BITS, y: ONE_BITS, z: ONE_BITS }
    }

    /// Build the all-ones vector.
    pub fn one() -> (v: Vec3)
        ensures
            v == Vec3::spec_one(),
    {
        Vec3 { x: ONE_BITS, y: ONE_BITS, z: ONE_BITS }
    }
}

impl Vec4 {
    /// The all-zero vector (every component is the pattern of positive zero).
    pub open spec fn spec_zero() -> Vec4 {
        Vec4 { x: 0, y: 0, z: 0, w: 0 }
    }

    /// Build the all-zero vector.
    pub fn zero() -> (v: Vec4)
        ensures
            v == Vec4::spec_zero(),
    {
        Vec4 { x: 0, y: 0, z: 0, w: 0 }
    }

    /// The all-ones vector.
    pub open spec fn spec_one() -> Vec4 {
        Vec4 { x: ONE_BITS, y: ONE_BITS, z: ONE_BITS, w: ONE_BITS }
    }

    /// Build the all-ones vector.
    pub fn one() -> (v: Vec4)
        ensures
            v == Vec4::spec_one(),
    {
        Vec4 { x: ONE_BITS, y: ONE_BITS, z: ONE_BITS, w: ONE_BITS }
    }
}

impl Quat {
    /// The identity rotation: x, y and z are zero and w is one.
    pub open spec fn spec_identity() -> Quat {
        Quat { x: 0, y: 0, z: 0, w: ONE_BITS }
    }

    /// Build the identity rotation.
    pub fn identity() -> (q: Quat)
        ensures
            q == Quat::spec_identity(),
    {
        Quat { x: 0, y: 0, z: 0, w: ONE_BITS }
    }
}

impl Mat4 {
    /// The identity matrix: ones on the diagonal, zeroes elsewhere.
    pub open spec fn spec_identity() -> Mat4 {
        Mat4 {
            x_axis: Vec4 { x: ONE_BITS, y: 0, z: 0, w: 0 },
            y_axis: Vec4 { x: 0, y: ONE_BITS, z: 0, w: 0 },
            z_axis: Vec4 { x: 0, y: 0, z: ONE_BITS, w: 0 },
            w_axis: Vec4 { x: 0, y: 0, z: 0, w: ONE_BITS },
        }
    }

    /// Build the identity matrix.
    pub fn identity() -> (m: Mat4)
        ensures
            m == Mat4::spec_identity(),
    {
        Mat4 {
            x_axis: Vec4 { x: ONE_BITS, y: 0, z: 0, w: 0 },
            y_axis: Vec4 { x: 0, y: ONE_BITS, z: 0, w: 0 },
            z_axis: Vec4 { x: 0, y: 0, z: ONE_BITS, w: 0 },
            w_axis: Vec4 { x: 0, y: 0, z: 0, w: ONE_BITS },
        }
    }
}

} // verus!
