//! Object placement: position, rotation and scale.

use vstd::prelude::*;

use crate::payload::QuatBits;
use crate::payload::Vec3Bits;

verus! {

/// A model transform.  The model matrix derived from it applies translation,
/// then scale, then rotation, in that order.
#[derive(Clone, Copy, PartialEq, Eq, Structural, Debug)]
pub struct Transform {
    pub position: Vec3Bits,
    pub rotation: QuatBits,
    pub scale: Vec3Bits,
}

impl Transform {
    pub fn new(position: Vec3Bits, rotation: QuatBits, scale: Vec3Bits) -> (t: Transform)
        ensures
            t == (Transform { position, rotation, scale }),
    {
        Transform { position, rotation, scale }
    }

    /// The identity placement: at the origin, unrotated, unit scale.
    pub open spec fn spec_default() -> Transform {
        Transform {
            position: Vec3Bits { x: crate::payload::BITS_ZERO, y: crate::payload::BITS_ZERO, z: crate::payload::BITS_ZERO },
            rotation: QuatBits { x: crate::payload::BITS_ZERO, y: crate::payload::BITS_ZERO, z: crate::payload::BITS_ZERO, w: crate::payload::BITS_ONE },
            scale: Vec3Bits { x: crate::payload::BITS_ONE, y: crate::payload::BITS_ONE, z: crate::payload::BITS_ONE },
        }
    }
}

impl Default for Transform {
    fn default() -> (t: Transform)
        ensures
            t == Transform::spec_default(),
    {
        Transform {
            position: Vec3Bits::zero(),
            rotation: QuatBits::identity(),
            scale: Vec3Bits::one(),
        }
    }
}

} // verus!
