//! Plain-value geometry types for the compiled vertex stream.
//!
//! Vertex components are IEEE 754 single-precision values carried as their
//! raw 32-bit patterns: the pipeline never does arithmetic on them, it only
//! moves them from the parsed attribute arrays into the interleaved vertex
//! records that are uploaded to the GPU. The bit pattern `0` is the pattern
//! of the value zero, so zero-filled defaults are literal zeros here.

use vstd::prelude::*;

verus! {

/// A three-component vector (position or normal), each component the raw
/// bit pattern of a single-precision value.
#[derive(Clone, Copy, Debug, PartialEq, Eq, Structural)]
pub struct Vec3 {
    pub x: u32,
    pub y: u32,
    pub z: u32,
}

/// A two-component texture coordinate, each component the raw bit pattern
/// of a single-precision value.
#[derive(Clone, Copy, Debug, PartialEq, Eq, Structural)]
pub struct Vec2 {
    pub u: u32,
    pub v: u32,
}

/// One interleaved vertex record, exactly as it is uploaded into a GPU
/// vertex buffer: position, normal (zero-filled if the source primitive
/// had no normal array) and texture coordinate (zero-filled likewise).
#[derive(Clone, Copy, Debug, PartialEq, Eq, Structural)]
pub struct GpuVertex {
    pub position: Vec3,
    pub normal: Vec3,
    pub uv: Vec2,
}

/// The zero vector: the component-wise default for an absent normal array.
pub open spec fn zero_vec3() -> Vec3 {
    Vec3 { x: 0, y: 0, z: 0 }
}

/// The zero texture coordinate: the default for an absent UV array.
pub open spec fn zero_vec2() -> Vec2 {
    Vec2 { u: 0, v: 0 }
}

impl Vec3 {
    /// The zero vector, as an executable value.
    pub fn zero() -> (r: Vec3)
        ensures
            r == zero_vec3(),
    {
        Vec3 { x: 0, y: 0, z: 0 }
    }
}

impl Vec2 {
    /// The zero texture coordinate, as an executable value.
    pub fn zero() -> (r: Vec2)
        ensures
            r == zero_vec2(),
    {
        Vec2 { u: 0, v: 0 }
    }
}

} // verus!
