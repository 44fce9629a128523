//! Values bound for the GPU, carried as raw IEEE-754 bit patterns.
//!
//! The pipeline core routes vectors, quaternions and matrices between the
//! scene, the camera and the shaders; it never does arithmetic on them.  Each
//! component is therefore held as the 32-bit pattern of the number, which the
//! unverified interpreter reinterprets when it talks to the graphics API.

use vstd::prelude::*;

verus! {

/// Bit pattern of 0.0f32.
pub const BITS_ZERO: u32 = 0x0000_0000;

/// Bit pattern of 1.0f32.
pub const BITS_ONE: u32 = 0x3f80_0000;

/// A three-component vector, one bit pattern per component.
#[derive(Clone, Copy, PartialEq, Eq, Structural, Debug)]
pub struct Vec3Bits {
    pub x: u32,
    pub y: u32,
    pub z: u32,
}

impl Vec3Bits {
    pub fn new(x: u32, y: u32, z: u32) -> (v: Vec3Bits)
        ensures
            v == (Vec3Bits { x, y, z }),
    {
        Vec3Bits { x, y, z }
    }

    /// The zero vector.
    pub fn zero() -> (v: Vec3Bits)
        ensures
            v == (Vec3Bits { x: BITS_ZERO, y: BITS_ZERO, z: BITS_ZERO }),
    {
        Vec3Bits { x: BITS_ZERO, y: BITS_ZERO, z: BITS_ZERO }
    }

    /// The all-ones vector.
    pub fn one() -> (v: Vec3Bits)
        ensures
            v == (Vec3Bits { x: BITS_ONE, y: BITS_ONE, z: BITS_ONE }),
    {
        Vec3Bits { x: BITS_ONE, y: BITS_ONE, z: BITS_ONE }
    }
}

/// A rotation quaternion, one bit pattern per component.
#[derive(Clone, Copy, PartialEq, Eq, Structural, Debug)]
pub struct QuatBits {
    pub x: u32,
    pub y: u32,
    pub z: u32,
    pub w: u32,
}

impl QuatBits {
    pub fn new(x: u32, y: u32, z: u32, w: u32) -> (q: QuatBits)
        ensures
            q == (QuatBits { x, y, z, w }),
    {
        QuatBits { x, y, z, w }
    }

    /// The identity rotation.
    pub fn identity() -> (q: QuatBits)
        ensures
            q == (QuatBits { x: BITS_ZERO, y: BITS_ZERO, z: BITS_ZERO, w: BITS_ONE }),
    {
        QuatBits { x: BITS_ZERO, y: BITS_ZERO, z: BITS_ZERO, w: BITS_ONE }
    }
}

/// One column of a 4x4 matrix.
#[derive(Clone, Copy, PartialEq, Eq, Structural, Debug)]
pub struct Vec4Bits {
    pub x: u32,
    pub y: u32,
    pub z: u32,
    pub w: u32,
}

/// A 4x4 matrix in column-major order, one bit pattern per entry.
#[derive(Clone, Copy, PartialEq, Eq, Structural, Debug)]
pub struct Mat4Bits {
    pub c0: Vec4Bits,
    pub c1: Vec4Bits,
    pub c2: Vec4Bits,
    pub c3: Vec4Bits,
}

impl Mat4Bits {
    /// The identity matrix.
    pub fn identity() -> (m: Mat4Bits)
        ensures
            m == Mat4Bits::spec_identity(),
    {
        Mat4Bits {
            c0: Vec4Bits { x: BITS_ONE, y: BITS_ZERO, z: BITS_ZERO, w: BITS_ZERO },
            c1: Vec4Bits { x: BITS_ZERO, y: BITS_ONE, z: BITS_ZERO, w: BITS_ZERO },
            c2: Vec4Bits { x: BITS_ZERO, y: BITS_ZERO, z: BITS_ONE, w: BITS_ZERO },
            c3: Vec4Bits { x: BITS_ZERO, y: BITS_ZERO, z: BITS_ZERO, w: BITS_ONE },
        }
    }

    pub open spec fn spec_identity() -> Mat4Bits {
        Mat4Bits {
            c0: Vec4Bits { x: BITS_ONE, y: BITS_ZERO, z: BITS_ZERO, w: BITS_ZERO },
            c1: Vec4Bits { x: BITS_ZERO, y: BITS_ONE, z: BITS_ZERO, w: BITS_ZERO },
            c2: Vec4Bits { x: BITS_ZERO, y: BITS_ZERO, z: BITS_ONE, w: BITS_ZERO },
            c3: Vec4Bits { x: BITS_ZERO, y: BITS_ZERO, z: BITS_ZERO, w: BITS_ONE },
        }
    }
}

} // verus!
