//! Three-component vectors.

use vstd::prelude::*;
use crate::ieee::{F64Bits, F64_ZERO};

verus! {

/// A vector of three binary64 components. A value type: it has no identity
/// and is never changed in place.
#[derive(Clone, Copy, Debug, PartialEq, Eq, Structural)]
pub struct Vector3 {
    pub x: F64Bits,
    pub y: F64Bits,
    pub z: F64Bits,
}

impl Vector3 {
    /// The vector with the given components.
    pub fn new(x: F64Bits, y: F64Bits, z: F64Bits) -> (v: Vector3)
        ensures
            v == (Vector3 { x, y, z }),
    {
        Vector3 { x, y, z }
    }

    /// The vector whose three components are positive zero.
    pub fn zero() -> (v: Vector3)
        ensures
            v == (Vector3 { x: F64_ZERO, y: F64_ZERO, z: F64_ZERO }),
    {
        Vector3::new(F64_ZERO, F64_ZERO, F64_ZERO)
    }
}

} // verus!
