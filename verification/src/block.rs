//! Local block coordinates within one chunk, with the six axis-aligned
//! neighbour offsets used by the mesher.

use vstd::prelude::*;
use crate::chunk;

verus! {

/// A local integer coordinate within one chunk. During meshing it also
/// carries the unit offsets toward the six face neighbours, which may step
/// one unit outside the chunk; the out-of-bounds test is `is_out`.
#[derive(Debug, Clone, Copy, PartialEq, Eq, Structural)]
pub struct BlockPosition {
    pub x: i64,
    pub y: i64,
    pub z: i64,
}

impl BlockPosition {
    pub fn new(x: i64, y: i64, z: i64) -> (r: BlockPosition)
        ensures
            r.x == x,
            r.y == y,
            r.z == z,
    {
        BlockPosition { x, y, z }
    }

    /// True when the coordinate lies inside the chunk on every axis.
    pub open spec fn in_bounds(self) -> bool {
        0 <= self.x < chunk::CHUNK_WIDTH && 0 <= self.y < chunk::CHUNK_HEIGHT && 0 <= self.z
            < chunk::CHUNK_LENGTH
    }

    pub fn is_out(&mut self) -> (r: bool)
        ensures
            *final(self) == *old(self),
            r == !old(self).in_bounds(),
    {
        self.x < 0 || self.x >= chunk::CHUNK_WIDTH as i64 || self.y < 0 || self.y
            >= chunk::CHUNK_HEIGHT as i64 || self.z < 0 || self.z >= chunk::CHUNK_LENGTH as i64
    }

    pub fn add(&self, rhs: &BlockPosition) -> (r: BlockPosition)
        requires
            i64::MIN <= self.x + rhs.x <= i64::MAX,
            i64::MIN <= self.y + rhs.y <= i64::MAX,
            i64::MIN <= self.z + rhs.z <= i64::MAX,
        ensures
            r.x == self.x + rhs.x,
            r.y == self.y + rhs.y,
            r.z == self.z + rhs.z,
    {
        BlockPosition { x: self.x + rhs.x, y: self.y + rhs.y, z: self.z + rhs.z }
    }

    pub fn sub(&self, rhs: &BlockPosition) -> (r: BlockPosition)
        requires
            i64::MIN <= self.x - rhs.x <= i64::MAX,
            i64::MIN <= self.y - rhs.y <= i64::MAX,
            i64::MIN <= self.z - rhs.z <= i64::MAX,
        ensures
            r.x == self.x - rhs.x,
            r.y == self.y - rhs.y,
            r.z == self.z - rhs.z,
    {
        BlockPosition { x: self.x - rhs.x, y: self.y - rhs.y, z: self.z - rhs.z }
    }

    /// The coordinate scaled by the block size of two world units per axis.
    pub fn to_slice(&self) -> (r: (i64, i64, i64))
        requires
            -0x2000_0000_0000_0000 <= self.x < 0x2000_0000_0000_0000,
            -0x2000_0000_0000_0000 <= self.y < 0x2000_0000_0000_0000,
            -0x2000_0000_0000_0000 <= self.z < 0x2000_0000_0000_0000,
        ensures
            r.0 == 2 * self.x,
            r.1 == 2 * self.y,
            r.2 == 2 * self.z,
    {
        (2 * self.x, 2 * self.y, 2 * self.z)
    }
}

} // verus!
