//! Three-component integer vectors.

use vstd::prelude::*;

verus! {

/// A vector of three signed integers. The unit of its components depends on
/// what the vector stands for; each use states it.
#[derive(Clone, Copy, Debug, PartialEq, Eq, Structural)]
pub struct Vector3 {
    pub x: i64,
    pub y: i64,
    pub z: i64,
}

impl Vector3 {
    pub fn new(x: i64, y: i64, z: i64) -> (v: Vector3)
        ensures
            v == (Vector3 { x, y, z }),
    {
        Vector3 { x, y, z }
    }
}

} // verus!
