//! Instances of a mesh: per-draw placements of the same base geometry.

use vstd::prelude::*;

verus! {

/// One placement of a mesh in the scene. The engine's geometry lives on an
/// integer grid, so a placement is an integer translation; rotation, when a
/// renderer wants one, is applied by the drawing layer when it packs the
/// instance into a transform matrix.
#[derive(Debug, Clone, Copy, PartialEq, Eq, Structural)]
pub struct ModelInstance {
    pub x: i64,
    pub y: i64,
    pub z: i64,
}

impl ModelInstance {
    pub fn new(x: i64, y: i64, z: i64) -> (r: ModelInstance)
        ensures
            r == (ModelInstance { x, y, z }),
    {
        ModelInstance { x, y, z }
    }

    /// A placement that only translates, with no rotation.
    pub fn from_position(x: i64, y: i64, z: i64) -> (r: ModelInstance)
        ensures
            r == (ModelInstance { x, y, z }),
    {
        ModelInstance { x, y, z }
    }
}

} // verus!
