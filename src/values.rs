use vstd::prelude::*;

verus! {

// Single-precision components are carried as their IEEE-754 bit patterns:
// this layer never computes with them, it only hands them to the context.

/// A two-component vector.
#[derive(Clone, Copy)]
pub struct Vec2 {
    pub x: u32,
    pub y: u32,
}

/// A three-component vector.
#[derive(Clone, Copy)]
pub struct Vec3 {
    pub x: u32,
    pub y: u32,
    pub z: u32,
}

/// A four-component vector.
#[derive(Clone, Copy)]
pub struct Vec4 {
    pub x: u32,
    pub y: u32,
    pub z: u32,
    pub w: u32,
}

/// A 3x3 matrix, column-major.
#[derive(Clone, Copy)]
pub struct Mat3 {
    pub f: [u32; 9],
}

/// A 4x4 matrix, column-major.
#[derive(Clone, Copy)]
pub struct Mat4 {
    pub f: [u32; 16],
}

/// An 8-bit-per-channel color; the context receives it normalised to four
/// floats in `0..=1`.
#[derive(Clone, Copy)]
pub struct Color {
    pub r: u8,
    pub g: u8,
    pub b: u8,
    pub a: u8,
}

} // verus!
